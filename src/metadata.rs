//! The build-metadata document and the choice of the workspace's primary
//! package.
use vstd::prelude::*;

verus! {

/// One package of the metadata document.
#[derive(Debug, Clone, PartialEq, Eq)]
pub struct Package {
    pub name: String,
    pub version: String,
    pub id: String,
}

/// The parts of the metadata document that publishing reads.
#[derive(Debug, Clone, PartialEq, Eq)]
pub struct Metadata {
    pub packages: Vec<Package>,
    pub target_directory: String,
    pub workspace_members: Vec<String>,
}

impl Metadata {
    /// Some package's `id` equals some workspace member.
    pub open spec fn has_primary(self) -> bool {
        exists|i: int, j: int|
            0 <= i < self.workspace_members@.len() && 0 <= j < self.packages@.len()
                && #[trigger] self.packages@[j].id@ == #[trigger] self.workspace_members@[i]@
    }

    /// Member `i` is the first workspace member that any package matches,
    /// and package `j` is the first package whose `id` equals it.
    pub open spec fn primary_at(self, i: int, j: int) -> bool {
        &&& 0 <= i < self.workspace_members@.len()
        &&& 0 <= j < self.packages@.len()
        &&& self.packages@[j].id@ == self.workspace_members@[i]@
        &&& forall|a: int, b: int|
            0 <= a < i && 0 <= b < self.packages@.len() ==> #[trigger] self.packages@[b].id@
                != #[trigger] self.workspace_members@[a]@
        &&& forall|b: int| 0 <= b < j ==> #[trigger] self.packages@[b].id@ != self.workspace_members@[i]@
    }

    /// The primary package: found by walking the members in order and, for
    /// each, the packages in order; `None` when no member names a package.
    pub open spec fn primary_package(self) -> Option<Package> {
        if self.has_primary() {
            let (i, j) = choose|i: int, j: int| self.primary_at(i, j);
            Some(self.packages@[j])
        } else {
            None
        }
    }

    /// At most one pair of positions is the primary one.
    pub proof fn lemma_primary_at_unique(self, i1: int, j1: int, i2: int, j2: int)
        requires
            self.primary_at(i1, j1),
            self.primary_at(i2, j2),
        ensures
            i1 == i2 && j1 == j2,
    {
        if i1 < i2 {
            assert(self.packages@[j1].id@ == self.workspace_members@[i1]@);
        } else if i2 < i1 {
            assert(self.packages@[j2].id@ == self.workspace_members@[i2]@);
        }
        assert(i1 == i2);
        if j1 < j2 {
            assert(self.packages@[j1].id@ == self.workspace_members@[i1]@);
        } else if j2 < j1 {
            assert(self.packages@[j2].id@ == self.workspace_members@[i2]@);
        }
    }

    /// The primary package, or `None` when no workspace member is the `id`
    /// of a package.
    pub fn get_workspace_package(&self) -> (r: Option<&Package>)
        ensures
            match r {
                Some(p) => self.primary_package() == Some(*p),
                None => self.primary_package() is None,
            },
    {
        let mut i: usize = 0;
        while i < self.workspace_members.len()
            invariant
                0 <= i <= self.workspace_members@.len(),
                forall|a: int, b: int|
                    0 <= a < i && 0 <= b < self.packages@.len() ==> #[trigger] self.packages@[b].id@
                        != #[trigger] self.workspace_members@[a]@,
            decreases self.workspace_members@.len() - i,
        {
            let member = &self.workspace_members[i];
            let mut j: usize = 0;
            while j < self.packages.len()
                invariant
                    0 <= i < self.workspace_members@.len(),
                    0 <= j <= self.packages@.len(),
                    member == self.workspace_members@[i as int],
                    forall|a: int, b: int|
                        0 <= a < i && 0 <= b < self.packages@.len() ==> #[trigger] self.packages@[b].id@
                            != #[trigger] self.workspace_members@[a]@,
                    forall|b: int| 0 <= b < j ==> #[trigger] self.packages@[b].id@ != member@,
                decreases self.packages@.len() - j,
            {
                if self.packages[j].id == *member {
                    proof {
                        assert(self.primary_at(i as int, j as int));
                        let (i2, j2) = choose|i2: int, j2: int| self.primary_at(i2, j2);
                        self.lemma_primary_at_unique(i as int, j as int, i2, j2);
                    }
                    return Some(&self.packages[j]);
                }
                j += 1;
            }
            i += 1;
        }
        None
    }
}

} // verus!

//! Where a package's binaries are published, and what to do with each
//! directory found under the build output root.
//!
//! A path is a list of strings: the first is a base path as given, each
//! later one a component joined below it.
use crate::metadata::{Metadata, Package};
use vstd::prelude::*;
use vstd::string::StringExecFns;

verus! {

/// The characters of each part of a path.
pub open spec fn parts(p: Seq<String>) -> Seq<Seq<char>> {
    p.map_values(|s: String| s@)
}

pub open spec fn debug_name() -> Seq<char> {
    seq!['d', 'e', 'b', 'u', 'g']
}

pub open spec fn release_name() -> Seq<char> {
    seq!['r', 'e', 'l', 'e', 'a', 's', 'e']
}

pub open spec fn exe_suffix() -> Seq<char> {
    seq!['.', 'e', 'x', 'e']
}

/// The names of the two build-profile directories at the root of the build
/// output, which are never targets.
pub open spec fn is_profile_name(s: Seq<char>) -> bool {
    s == debug_name() || s == release_name()
}

/// The file names a package's binary may have, in the order they are tried:
/// without an extension, then with the Windows one.
pub open spec fn candidate_names(package_name: Seq<char>) -> Seq<Seq<char>> {
    seq![package_name, package_name + exe_suffix()]
}

/// `publish_dir / name / version`.
pub open spec fn publish_path_of(publish_dir: Seq<char>, package: Package) -> Seq<Seq<char>> {
    seq![publish_dir, package.name@, package.version@]
}

/// `path / name`.
pub fn join(path: &Vec<String>, name: &String) -> (r: Vec<String>)
    ensures
        parts(r@) == parts(path@).push(name@),
{
    let mut r: Vec<String> = Vec::new();
    let mut i: usize = 0;
    while i < path.len()
        invariant
            0 <= i <= path@.len(),
            r@ == path@.subrange(0, i as int),
        decreases path@.len() - i,
    {
        r.push(path[i].clone());
        proof {
            assert(r@ =~= path@.subrange(0, i + 1));
        }
        i += 1;
    }
    proof {
        assert(r@ =~= path@);
    }
    r.push(name.clone());
    proof {
        assert(parts(r@) =~= parts(path@).push(name@));
    }
    r
}

/// Whether `name` is one of the build-profile directory names.
pub fn is_profile_dir_name(name: &String) -> (r: bool)
    ensures
        r == is_profile_name(name@),
{
    let debug = String::from_str("debug");
    let release = String::from_str("release");
    proof {
        reveal_strlit("debug");
        reveal_strlit("release");
        assert(debug@ =~= debug_name());
        assert(release@ =~= release_name());
    }
    *name == debug || *name == release
}

/// The file names the package's binary may have, in the order tried.
pub fn file_candidates(package_name: &String) -> (r: Vec<String>)
    ensures
        parts(r@) == candidate_names(package_name@),
{
    let exe = package_name.clone().concat(".exe");
    proof {
        reveal_strlit(".exe");
        assert(exe@ =~= package_name@ + exe_suffix());
    }
    let r = vec![package_name.clone(), exe];
    proof {
        assert(parts(r@) =~= candidate_names(package_name@));
    }
    r
}

/// `publish_dir / package.name / package.version`.
pub fn publish_path(publish_dir: &String, package: &Package) -> (r: Vec<String>)
    ensures
        parts(r@) == publish_path_of(publish_dir@, *package),
{
    let r = vec![publish_dir.clone(), package.name.clone(), package.version.clone()];
    proof {
        assert(parts(r@) =~= publish_path_of(publish_dir@, *package));
    }
    r
}

impl Metadata {
    /// The publish path of the primary package under `publish_dir`, or
    /// `None` when there is no primary package.
    pub fn publish_path(&self, publish_dir: &String) -> (r: Option<Vec<String>>)
        ensures
            match r {
                Some(p) => exists|pkg: Package|
                    self.primary_package() == Some(pkg) && parts(p@) == publish_path_of(
                        publish_dir@,
                        pkg,
                    ),
                None => self.primary_package() is None,
            },
    {
        match self.get_workspace_package() {
            Some(package) => Some(publish_path(publish_dir, package)),
            None => None,
        }
    }
}

} // verus!

verus! {

/// What was observed of one entry directly under the build output root,
/// for a given list of file candidates.
#[derive(Debug, Clone, PartialEq, Eq)]
pub struct TargetProbe {
    /// The entry is a directory.
    pub is_dir: bool,
    /// The entry's base name without its extension: the target identifier.
    pub name: String,
    /// `target_directory / name / release` exists.
    pub release_exists: bool,
    /// For each candidate, whether `target_directory / name / release / candidate` exists.
    pub sources: Vec<bool>,
    /// For each candidate, whether `publish_path / name / candidate` exists.
    pub published: Vec<bool>,
}

/// What to do with one entry under the build output root.
#[derive(Debug, Clone, PartialEq, Eq)]
pub enum TargetAction {
    /// Not a directory: ignored.
    NotADirectory,
    /// A build-profile directory (`debug` or `release`): ignored.
    ProfileDir,
    /// The target has no `release` directory: reported and skipped.
    NotReleased,
    /// No candidate binary was built for the target: skipped.
    NoBinary,
    /// The binary is already published at `dest`: reported, left as it is.
    AlreadyPublished { dest: Vec<String> },
    /// Create `dest_dir` and its parents as needed, then copy `source` to `dest`.
    Copy { source: Vec<String>, dest_dir: Vec<String>, dest: Vec<String> },
}

/// The mathematical form of a `TargetAction`.
pub enum Plan {
    NotADirectory,
    ProfileDir,
    NotReleased,
    NoBinary,
    AlreadyPublished { dest: Seq<Seq<char>> },
    Copy { source: Seq<Seq<char>>, dest_dir: Seq<Seq<char>>, dest: Seq<Seq<char>> },
}

impl View for TargetAction {
    type V = Plan;

    open spec fn view(&self) -> Plan {
        match self {
            TargetAction::NotADirectory => Plan::NotADirectory,
            TargetAction::ProfileDir => Plan::ProfileDir,
            TargetAction::NotReleased => Plan::NotReleased,
            TargetAction::NoBinary => Plan::NoBinary,
            TargetAction::AlreadyPublished { dest } => Plan::AlreadyPublished { dest: parts(dest@) },
            TargetAction::Copy { source, dest_dir, dest } => Plan::Copy {
                source: parts(source@),
                dest_dir: parts(dest_dir@),
                dest: parts(dest@),
            },
        }
    }
}

/// `k` is the first position at which `s` holds.
pub open spec fn first_present(s: Seq<bool>, k: int) -> bool {
    0 <= k < s.len() && s[k] && forall|j: int| 0 <= j < k ==> !#[trigger] s[j]
}

pub proof fn lemma_first_present_unique(s: Seq<bool>, k1: int, k2: int)
    requires
        first_present(s, k1),
        first_present(s, k2),
    ensures
        k1 == k2,
{
    if k1 < k2 {
        assert(!s[k1]);
    } else if k2 < k1 {
        assert(!s[k2]);
    }
}

/// The probe's lists have one entry per candidate.
pub open spec fn probe_fits(candidates: Seq<Seq<char>>, probe: TargetProbe) -> bool {
    probe.sources@.len() == candidates.len() && probe.published@.len() == candidates.len()
}

/// What is done with a probed entry: non-directories and profile
/// directories are ignored; a target without a `release` directory is
/// skipped; otherwise the first candidate present in that directory is
/// copied to `publish_path / name / candidate`, unless a file is already
/// there; with no candidate present nothing is done.
pub open spec fn plan_of(
    candidates: Seq<Seq<char>>,
    target_directory: Seq<char>,
    publish_path: Seq<Seq<char>>,
    probe: TargetProbe,
) -> Plan {
    if !probe.is_dir {
        Plan::NotADirectory
    } else if is_profile_name(probe.name@) {
        Plan::ProfileDir
    } else if !probe.release_exists {
        Plan::NotReleased
    } else if exists|k: int| first_present(probe.sources@, k) {
        let k = choose|k: int| first_present(probe.sources@, k);
        let dest_dir = publish_path.push(probe.name@);
        let dest = dest_dir.push(candidates[k]);
        if probe.published@[k] {
            Plan::AlreadyPublished { dest }
        } else {
            Plan::Copy {
                source: seq![target_directory, probe.name@, release_name(), candidates[k]],
                dest_dir,
                dest,
            }
        }
    } else {
        Plan::NoBinary
    }
}

/// Decides what to do with one probed entry under `target_directory`, for
/// the binary named by one of `candidates` and published below
/// `publish_path`.
pub fn plan_target(
    target_directory: &String,
    publish_path: &Vec<String>,
    candidates: &Vec<String>,
    probe: &TargetProbe,
) -> (r: TargetAction)
    requires
        probe_fits(parts(candidates@), *probe),
    ensures
        r@ == plan_of(parts(candidates@), target_directory@, parts(publish_path@), *probe),
{
    if !probe.is_dir {
        return TargetAction::NotADirectory;
    }
    if is_profile_dir_name(&probe.name) {
        return TargetAction::ProfileDir;
    }
    if !probe.release_exists {
        return TargetAction::NotReleased;
    }
    let release = String::from_str("release");
    proof {
        reveal_strlit("release");
        assert(release@ =~= release_name());
    }
    let compile_path = vec![target_directory.clone(), probe.name.clone(), release];
    let ghost cs = parts(candidates@);
    let mut k: usize = 0;
    while k < candidates.len()
        invariant
            0 <= k <= candidates@.len(),
            probe_fits(cs, *probe),
            probe.is_dir && !is_profile_name(probe.name@) && probe.release_exists,
            cs == parts(candidates@),
            parts(compile_path@) == seq![target_directory@, probe.name@, release_name()],
            forall|j: int| 0 <= j < k ==> !#[trigger] probe.sources@[j],
        decreases candidates@.len() - k,
    {
        if probe.sources[k] {
            proof {
                assert(first_present(probe.sources@, k as int));
                let k2 = choose|k2: int| first_present(probe.sources@, k2);
                lemma_first_present_unique(probe.sources@, k as int, k2);
                assert(cs[k as int] == candidates@[k as int]@);
            }
            let dest_dir = join(publish_path, &probe.name);
            let dest = join(&dest_dir, &candidates[k]);
            if probe.published[k] {
                return TargetAction::AlreadyPublished { dest };
            }
            let source = join(&compile_path, &candidates[k]);
            proof {
                assert(parts(source@) =~= seq![target_directory@, probe.name@, release_name(), cs[k as int]]);
            }
            return TargetAction::Copy { source, dest_dir, dest };
        }
        k += 1;
    }
    proof {
        assert(!exists|j: int| first_present(probe.sources@, j));
    }
    TargetAction::NoBinary
}

} // verus!

verus! {

/// A directory named `debug` or `release` is never treated as a target,
/// whatever it holds: nothing is copied from it or reported about it.
pub proof fn lemma_profile_dirs_are_not_targets(
    candidates: Seq<Seq<char>>,
    target_directory: Seq<char>,
    publish_path: Seq<Seq<char>>,
    probe: TargetProbe,
)
    requires
        is_profile_name(probe.name@),
    ensures
        plan_of(candidates, target_directory, publish_path, probe) is NotADirectory
            || plan_of(candidates, target_directory, publish_path, probe) is ProfileDir,
{
}

/// A target directory without a `release` directory is reported as not
/// built in release mode and contributes no copy.
pub proof fn lemma_unreleased_target_is_skipped(
    candidates: Seq<Seq<char>>,
    target_directory: Seq<char>,
    publish_path: Seq<Seq<char>>,
    probe: TargetProbe,
)
    requires
        probe.is_dir,
        !is_profile_name(probe.name@),
        !probe.release_exists,
    ensures
        plan_of(candidates, target_directory, publish_path, probe) == Plan::NotReleased,
{
}

/// Publishing twice copies nothing the second time: once the first run has
/// copied a binary to `dest`, a second run that sees the same build output
/// and finds `dest` present only reports it as already published.
pub proof fn lemma_second_run_copies_nothing(
    candidates: Seq<Seq<char>>,
    target_directory: Seq<char>,
    publish_path: Seq<Seq<char>>,
    first: TargetProbe,
    second: TargetProbe,
)
    requires
        probe_fits(candidates, first),
        probe_fits(candidates, second),
        plan_of(candidates, target_directory, publish_path, first) is Copy,
        second.is_dir == first.is_dir,
        second.name@ == first.name@,
        second.release_exists == first.release_exists,
        second.sources@ == first.sources@,
        forall|k: int|
            0 <= k < candidates.len() && publish_path.push(second.name@).push(candidates[k])
                == plan_of(candidates, target_directory, publish_path, first)->Copy_dest
                ==> #[trigger] second.published@[k],
    ensures
        plan_of(candidates, target_directory, publish_path, second) == (Plan::AlreadyPublished {
            dest: plan_of(candidates, target_directory, publish_path, first)->Copy_dest,
        }),
{
    let k = choose|k: int| first_present(first.sources@, k);
    assert(second.published@[k]);
}

/// When both the extension-less binary and the `.exe` one are present, the
/// extension-less one is the one published.
pub proof fn lemma_plain_name_first(
    package_name: Seq<char>,
    target_directory: Seq<char>,
    publish_path: Seq<Seq<char>>,
    probe: TargetProbe,
)
    requires
        probe_fits(candidate_names(package_name), probe),
        probe.is_dir,
        !is_profile_name(probe.name@),
        probe.release_exists,
        probe.sources@[0],
        probe.sources@[1],
    ensures
        match plan_of(candidate_names(package_name), target_directory, publish_path, probe) {
            Plan::Copy { source, dest_dir, dest } => source.last() == package_name
                && dest == publish_path.push(probe.name@).push(package_name),
            Plan::AlreadyPublished { dest } => dest == publish_path.push(probe.name@).push(
                package_name,
            ),
            _ => false,
        },
{
    assert(first_present(probe.sources@, 0));
    let k = choose|k: int| first_present(probe.sources@, k);
    lemma_first_present_unique(probe.sources@, 0, k);
}

} // verus!

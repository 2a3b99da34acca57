use publish_bin::metadata::{Metadata, Package};
use publish_bin::publish::{
    file_candidates, is_profile_dir_name, join, plan_target, publish_path, TargetAction,
    TargetProbe,
};

fn s(x: &str) -> String {
    x.to_string()
}

fn strings(xs: &[&str]) -> Vec<String> {
    xs.iter().map(|x| x.to_string()).collect()
}

fn package(name: &str, version: &str, id: &str) -> Package {
    Package { name: s(name), version: s(version), id: s(id) }
}

fn tool_metadata() -> Metadata {
    Metadata {
        packages: vec![package("tool", "1.2.0", "tool#1.2.0")],
        target_directory: s("/build"),
        workspace_members: strings(&["tool#1.2.0"]),
    }
}

fn probe(name: &str, is_dir: bool, release: bool, sources: &[bool], published: &[bool]) -> TargetProbe {
    TargetProbe {
        is_dir,
        name: s(name),
        release_exists: release,
        sources: sources.to_vec(),
        published: published.to_vec(),
    }
}

#[test]
fn primary_package_is_the_member_package() {
    let meta = tool_metadata();
    let p = meta.get_workspace_package().unwrap();
    assert_eq!(p.id, "tool#1.2.0");
    assert_eq!(p.name, "tool");
}

#[test]
fn first_member_wins_over_first_package() {
    let meta = Metadata {
        packages: vec![package("a", "0.1.0", "a#0.1.0"), package("b", "0.2.0", "b#0.2.0")],
        target_directory: s("/t"),
        workspace_members: strings(&["c#9", "b#0.2.0", "a#0.1.0"]),
    };
    assert_eq!(meta.get_workspace_package().unwrap().name, "b");
}

#[test]
fn duplicate_ids_pick_the_first_package() {
    let meta = Metadata {
        packages: vec![package("x", "1.0.0", "dup"), package("y", "2.0.0", "dup")],
        target_directory: s("/t"),
        workspace_members: strings(&["dup"]),
    };
    assert_eq!(meta.get_workspace_package().unwrap().name, "x");
}

#[test]
fn no_primary_package_without_members() {
    let meta = Metadata {
        packages: vec![package("a", "0.1.0", "a#0.1.0")],
        target_directory: s("/t"),
        workspace_members: vec![],
    };
    assert!(meta.get_workspace_package().is_none());
    assert!(meta.publish_path(&s("/out")).is_none());
}

#[test]
fn no_primary_package_when_no_id_matches() {
    let meta = Metadata {
        packages: vec![package("a", "0.1.0", "a#0.1.0")],
        target_directory: s("/t"),
        workspace_members: strings(&["b#0.1.0"]),
    };
    assert!(meta.get_workspace_package().is_none());
}

#[test]
fn publish_path_is_dir_name_version() {
    let meta = tool_metadata();
    assert_eq!(meta.publish_path(&s("/out")).unwrap(), strings(&["/out", "tool", "1.2.0"]));
    let p = package("tool", "1.2.0", "tool#1.2.0");
    assert_eq!(publish_path(&s("pub"), &p), strings(&["pub", "tool", "1.2.0"]));
}

#[test]
fn join_appends_a_component() {
    assert_eq!(join(&strings(&["/out", "a"]), &s("b")), strings(&["/out", "a", "b"]));
    assert_eq!(join(&vec![], &s("b")), strings(&["b"]));
}

#[test]
fn candidates_are_plain_then_exe() {
    assert_eq!(file_candidates(&s("tool")), strings(&["tool", "tool.exe"]));
}

#[test]
fn profile_names() {
    assert!(is_profile_dir_name(&s("debug")));
    assert!(is_profile_dir_name(&s("release")));
    assert!(!is_profile_dir_name(&s("Release")));
    assert!(!is_profile_dir_name(&s("debugx")));
    assert!(!is_profile_dir_name(&s("x86_64-unknown-linux-gnu")));
}

#[test]
fn profile_dirs_are_never_targets() {
    let pp = strings(&["/out", "tool", "1.2.0"]);
    let c = file_candidates(&s("tool"));
    for name in ["debug", "release"] {
        let p = probe(name, true, true, &[true, true], &[false, false]);
        assert_eq!(plan_target(&s("/build"), &pp, &c, &p), TargetAction::ProfileDir);
    }
}

#[test]
fn files_are_not_targets() {
    let pp = strings(&["/out", "tool", "1.2.0"]);
    let c = file_candidates(&s("tool"));
    let p = probe("notes", false, true, &[true, true], &[false, false]);
    assert_eq!(plan_target(&s("/build"), &pp, &c, &p), TargetAction::NotADirectory);
}

#[test]
fn target_without_release_is_skipped() {
    let pp = strings(&["/out", "tool", "1.2.0"]);
    let c = file_candidates(&s("tool"));
    let p = probe("wasm32-unknown-unknown", true, false, &[false, false], &[false, false]);
    assert_eq!(plan_target(&s("/build"), &pp, &c, &p), TargetAction::NotReleased);
}

#[test]
fn target_without_binary_does_nothing() {
    let pp = strings(&["/out", "tool", "1.2.0"]);
    let c = file_candidates(&s("tool"));
    let p = probe("aarch64-apple-darwin", true, true, &[false, false], &[false, false]);
    assert_eq!(plan_target(&s("/build"), &pp, &c, &p), TargetAction::NoBinary);
}

#[test]
fn second_run_copies_nothing() {
    let pp = strings(&["/out", "tool", "1.2.0"]);
    let c = file_candidates(&s("tool"));
    let name = "x86_64-unknown-linux-gnu";
    let first = plan_target(&s("/build"), &pp, &c, &probe(name, true, true, &[true, false], &[false, false]));
    let dest = strings(&["/out", "tool", "1.2.0", name, "tool"]);
    assert_eq!(
        first,
        TargetAction::Copy {
            source: strings(&["/build", name, "release", "tool"]),
            dest_dir: strings(&["/out", "tool", "1.2.0", name]),
            dest: dest.clone(),
        }
    );
    let second = plan_target(&s("/build"), &pp, &c, &probe(name, true, true, &[true, false], &[true, false]));
    assert_eq!(second, TargetAction::AlreadyPublished { dest });
}

#[test]
fn plain_binary_wins_over_exe() {
    let pp = strings(&["/out", "tool", "1.2.0"]);
    let c = file_candidates(&s("tool"));
    let name = "x86_64-pc-windows-gnu";
    let a = plan_target(&s("/build"), &pp, &c, &probe(name, true, true, &[true, true], &[false, false]));
    match a {
        TargetAction::Copy { source, dest, .. } => {
            assert_eq!(source, strings(&["/build", name, "release", "tool"]));
            assert_eq!(dest, strings(&["/out", "tool", "1.2.0", name, "tool"]));
        }
        other => panic!("unexpected {:?}", other),
    }
}

#[test]
fn exe_binary_is_used_when_alone() {
    let pp = strings(&["/out", "tool", "1.2.0"]);
    let c = file_candidates(&s("tool"));
    let name = "x86_64-pc-windows-gnu";
    let a = plan_target(&s("/build"), &pp, &c, &probe(name, true, true, &[false, true], &[true, false]));
    assert_eq!(
        a,
        TargetAction::Copy {
            source: strings(&["/build", name, "release", "tool.exe"]),
            dest_dir: strings(&["/out", "tool", "1.2.0", name]),
            dest: strings(&["/out", "tool", "1.2.0", name, "tool.exe"]),
        }
    );
}

#[test]
fn tool_example_publishes_linux_binary_and_skips_debug() {
    let meta = tool_metadata();
    let package = meta.get_workspace_package().unwrap();
    let pp = meta.publish_path(&s("/out")).unwrap();
    let c = file_candidates(&package.name);
    let debug = probe("debug", true, false, &[false, false], &[false, false]);
    assert_eq!(plan_target(&meta.target_directory, &pp, &c, &debug), TargetAction::ProfileDir);
    let linux = probe("x86_64-unknown-linux-gnu", true, true, &[true, false], &[false, false]);
    match plan_target(&meta.target_directory, &pp, &c, &linux) {
        TargetAction::Copy { source, dest, .. } => {
            assert_eq!(source, strings(&["/build", "x86_64-unknown-linux-gnu", "release", "tool"]));
            assert_eq!(dest, strings(&["/out", "tool", "1.2.0", "x86_64-unknown-linux-gnu", "tool"]));
        }
        other => panic!("unexpected {:?}", other),
    }
}

use nightkrawler::classify::{
    classify_group, classify_path, is_generated_path, matching_protected_root, protected_roots, TargetOs,
};
use nightkrawler::model::{CandidateFile, DuplicateGroup, PathClass};
use nightkrawler::pathname::{join_path, path_file_name, same_path, starts_with};
use nightkrawler::scan::{entry_action, is_dotdir, path_action, should_exclude_path, PathKind, WalkAction};
use nightkrawler::version::{best_version_in_path, parse_version_component};

fn v(items: &[&str]) -> Vec<Vec<u8>> {
    items.iter().map(|s| s.as_bytes().to_vec()).collect()
}

#[test]
fn path_prefixes_go_by_components() {
    assert!(starts_with(b"/etc/passwd", b"/etc"));
    assert!(starts_with(b"/etc//x/", b"/etc/"));
    assert!(!starts_with(b"/etcetera", b"/etc"));
    assert!(starts_with(b"a/./b", b"a/b"));
    assert!(!starts_with(b"a/../b", b"a/b"));
    assert!(same_path(b"/a/b/", b"/a//b"));
    assert!(!same_path(b"/a/b", b"a/b"));
}

#[test]
fn joining_and_file_names() {
    assert_eq!(join_path(b"/q", b"x/y"), b"/q/x/y".to_vec());
    assert_eq!(join_path(b"/q/", b"x"), b"/q/x".to_vec());
    assert_eq!(join_path(b"/q", b"/abs"), b"/abs".to_vec());
    assert_eq!(join_path(b"", b"x"), b"x".to_vec());
    assert_eq!(path_file_name(b"/a/b.txt"), Some(b"b.txt".to_vec()));
    assert_eq!(path_file_name(b"/a/b/"), Some(b"b".to_vec()));
    assert_eq!(path_file_name(b"/a/.."), None);
    assert_eq!(path_file_name(b"/"), None);
    assert_eq!(path_file_name(b"a/."), Some(b"a".to_vec()));
}

#[test]
fn generated_paths() {
    assert!(is_generated_path(b"/src/proj/target/debug/x"));
    assert!(is_generated_path(b"node_modules/pkg/index.js"));
    assert!(is_generated_path(b"/h/.cache/f"));
    assert!(!is_generated_path(b"/src/targets/x"));
    assert!(!is_generated_path(b"/build.rs"));
}

#[test]
fn protected_roots_in_order() {
    let roots = protected_roots(&v(&["/srv"]), &Some(b"/home/u".to_vec()), TargetOs::FreeBsd);
    assert_eq!(
        roots,
        v(&["/boot", "/etc", "/root", "/usr/local/etc", "/home/u/.ssh", "/home/u/.gnupg", "/home/u/.config", "/srv"])
    );
    let roots = protected_roots(&Vec::new(), &None, TargetOs::Other);
    assert_eq!(roots, v(&["/boot", "/etc", "/root"]));
    let roots = protected_roots(&Vec::new(), &None, TargetOs::NetBsd);
    assert_eq!(roots, v(&["/boot", "/etc", "/root", "/usr/pkg/etc"]));
}

#[test]
fn the_deepest_matching_root_wins() {
    let roots = v(&["/etc", "/etc/ssh", "/srv", "/etc/ssh/"]);
    assert_eq!(matching_protected_root(b"/etc/ssh/sshd_config", &roots), Some(b"/etc/ssh/".to_vec()));
    assert_eq!(matching_protected_root(b"/etc/hosts", &roots), Some(b"/etc".to_vec()));
    assert_eq!(matching_protected_root(b"/var/x", &roots), None);
}

#[test]
fn classes_of_paths_and_groups() {
    let roots = v(&["/etc"]);
    assert_eq!(classify_path(b"/etc/x", b"/etc/x", &roots), PathClass::Protected);
    assert_eq!(classify_path(b"/link/x", b"/etc/x", &roots), PathClass::Protected);
    assert_eq!(classify_path(b"/p/build/x", b"/p/build/x", &roots), PathClass::Generated);
    assert_eq!(classify_path(b"/p/x", b"/p/x", &roots), PathClass::Ordinary);
    let group = DuplicateGroup {
        keep: CandidateFile { path: b"/p/x".to_vec(), size: 1 },
        remove: vec![CandidateFile { path: b"/p/dist/x".to_vec(), size: 1 }],
    };
    assert_eq!(classify_group(&group, &v(&["/p/x", "/p/dist/x"]), &roots), PathClass::Generated);
    assert_eq!(classify_group(&group, &v(&["/p/x", "/etc/x"]), &roots), PathClass::Protected);
}

#[test]
fn version_components() {
    assert_eq!(parse_version_component(b"1.2.3"), Some(vec![1, 2, 3]));
    assert_eq!(parse_version_component(b"v10.0"), Some(vec![10, 0]));
    assert_eq!(parse_version_component(b"vV2.5"), Some(vec![2, 5]));
    assert_eq!(parse_version_component(b"12"), None);
    assert_eq!(parse_version_component(b"1..2"), None);
    assert_eq!(parse_version_component(b"1.2a"), None);
    assert_eq!(parse_version_component(b"."), None);
    assert_eq!(parse_version_component(b"99999999999999999999.1"), None);
    assert_eq!(best_version_in_path(b"/opt/1.9/sub/2.0/x"), Some(vec![2, 0]));
    assert_eq!(best_version_in_path(b"/opt/1.10/1.9"), Some(vec![1, 10]));
    assert_eq!(best_version_in_path(b"/opt/none"), None);
}

#[test]
fn exclusion_of_quarantine_and_excluded_trees() {
    let q = Some(b"/q".to_vec());
    assert!(should_exclude_path(b"/q/a", &q, &Vec::new()));
    assert!(should_exclude_path(b"/x/y", &None, &v(&["/z", "/x"])));
    assert!(!should_exclude_path(b"/xy", &q, &v(&["/x"])));
}

#[test]
fn walk_decisions() {
    assert!(is_dotdir(b"/home/u/.git"));
    assert!(!is_dotdir(b"/home/u/git"));
    assert!(!is_dotdir(b"/"));
    assert!(is_dotdir(b"/a/.x/"));
    assert_eq!(path_action(PathKind::File, 10, false, false, false, 10), WalkAction::Collect);
    assert_eq!(path_action(PathKind::File, 9, false, false, false, 10), WalkAction::Skip);
    assert_eq!(path_action(PathKind::Symlink, 10, false, true, false, 0), WalkAction::Skip);
    assert_eq!(path_action(PathKind::Directory, 0, true, true, false, 0), WalkAction::Skip);
    assert_eq!(path_action(PathKind::Directory, 0, true, true, true, 0), WalkAction::Descend);
    assert_eq!(path_action(PathKind::Directory, 0, true, false, false, 0), WalkAction::Descend);
    assert_eq!(path_action(PathKind::Other, 0, false, false, false, 0), WalkAction::Skip);
    assert_eq!(entry_action(PathKind::Directory, 0, false, false, 0), WalkAction::Skip);
    assert_eq!(entry_action(PathKind::Directory, 0, false, true, 0), WalkAction::Descend);
    assert_eq!(entry_action(PathKind::File, 0, false, true, 0), WalkAction::Collect);
    assert_eq!(entry_action(PathKind::File, 100, true, true, 0), WalkAction::Skip);
    assert_eq!(entry_action(PathKind::Directory, 0, true, true, 0), WalkAction::Skip);
    assert_eq!(entry_action(PathKind::Symlink, 5, false, true, 0), WalkAction::Skip);
}

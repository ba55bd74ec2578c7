use pathlock::paths::{
    sanitize_filename, contains_parent_component, trim_slashes, join_entity_path,
    join_user_directory, check_under_root, CanonicalPath,
};

#[test]
fn sanitize_file_name() {
    let res = sanitize_filename("valid_name.txt");
    assert_eq!(res, "valid_name.txt");
    let res = sanitize_filename("back\\\\slashes\\\\.txt");
    assert_eq!(res, "backslashes.txt");
    let res = sanitize_filename("valid/_name.txt");
    assert_eq!(res, "valid_name.txt");
}

#[test]
fn sanitize_keeps_dots_and_spaces() {
    assert_eq!(sanitize_filename("a b.c"), "a b.c");
    assert_eq!(sanitize_filename(""), "");
    assert_eq!(sanitize_filename("/\\"), "");
}

#[test]
fn parent_component_detection() {
    assert!(contains_parent_component(".."));
    assert!(contains_parent_component("../x"));
    assert!(contains_parent_component("x/.."));
    assert!(contains_parent_component("a/../b"));
    assert!(contains_parent_component("../../etc/passwd"));
    assert!(!contains_parent_component(""));
    assert!(!contains_parent_component("a/b"));
    assert!(!contains_parent_component("..a"));
    assert!(!contains_parent_component("a.."));
    assert!(!contains_parent_component("a..b"));
    assert!(!contains_parent_component("..."));
    assert!(!contains_parent_component("a/..b/c"));
}

#[test]
fn trim_slashes_both_ends() {
    assert_eq!(trim_slashes("/a/b/"), "a/b");
    assert_eq!(trim_slashes("///"), "");
    assert_eq!(trim_slashes(""), "");
    assert_eq!(trim_slashes("a"), "a");
    assert_eq!(trim_slashes("/a"), "a");
}

#[test]
fn join_paths() {
    assert_eq!(join_entity_path("/root", "alice", "docs", "r.txt"), "/root/alice/docs/r.txt");
    assert_eq!(join_entity_path("/root", "alice", "", "r.txt"), "/root/alice/r.txt");
    assert_eq!(join_entity_path("/root", "alice", "/docs/", "r.txt"), "/root/alice/docs/r.txt");
    assert_eq!(join_user_directory("/root", "alice", "f.bin"), "/root/alice/f.bin");
    assert_eq!(join_user_directory("/root", "", "f.bin"), "/root/f.bin");
}

#[test]
fn under_root_check() {
    assert!(check_under_root("/root", "/root"));
    assert!(check_under_root("/root", "/root/a"));
    assert!(!check_under_root("/root", "/roots"));
    assert!(!check_under_root("/root", "/roo"));
    assert!(!check_under_root("/root", "/etc/passwd"));
}

#[test]
fn canonical_path_acceptance() {
    let ok = CanonicalPath::accept("/root", String::from("/root/alice/a.txt"));
    assert!(ok.is_ok());
    assert_eq!(ok.unwrap().as_str(), "/root/alice/a.txt");
    // an OS resolution that escaped the root is refused, whatever the
    // OS thought of it
    assert!(CanonicalPath::accept("/root", String::from("/etc/passwd")).is_err());
    assert!(CanonicalPath::accept("/root", String::from("/root/../etc")).is_err());
}

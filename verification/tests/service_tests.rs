use std::collections::HashMap;
use pathlock::outcome::EntityKind;
use pathlock::services::{
    PathService, RenameService, FileService, SaveFailure, prepare_read, read_outcome,
};
use pathlock::privileges::{PrivilegeStore, PrivilegeService, privilege_decision};
use pathlock::login::verify_user_credentials;
use pathlock::dir_tree::{DirTree, DirEntryInfo, build_dir_tree_level, tree_root_name};

struct MapStore {
    levels: HashMap<String, i32>,
}

impl PrivilegeStore for MapStore {
    fn get_privilege_level(&self, role: &str) -> Result<i32, String> {
        match self.levels.get(role) {
            Some(level) => Ok(*level),
            None => Err(String::from("role not found")),
        }
    }
}

#[test]
fn entity_kind_checks() {
    let path_service = PathService::new();
    assert!(path_service.check_if_entity_is_dir(EntityKind::Directory, "d").is_ok());
    let err = path_service.check_if_entity_is_dir(EntityKind::Missing, "d").unwrap_err();
    assert_eq!(err, (404, String::from("Directory 'd' not found.")));
    let err = path_service.check_if_entity_is_dir(EntityKind::File, "d").unwrap_err();
    assert_eq!(err, (400, String::from("'d' is not a directory.")));

    assert!(path_service.check_if_entity_is_file(EntityKind::File, "f").is_ok());
    let err = path_service.check_if_entity_is_file(EntityKind::Missing, "f").unwrap_err();
    assert_eq!(err, (404, String::from("File 'f' not found.")));
    let err = path_service.check_if_entity_is_file(EntityKind::Directory, "f").unwrap_err();
    assert_eq!(err, (400, String::from("'f' is not a file.")));
}

#[test]
fn test_rename_directory_successful() {
    let root = String::from("/srv/root");
    let rename_service = RenameService::new(root);
    let (old_path, new_path) = rename_service
        .rename_paths("test_user", "test_dir", "old_name", "new_name")
        .expect("paths must join");
    assert_eq!(old_path, "/srv/root/test_user/test_dir/old_name");
    assert_eq!(new_path, "/srv/root/test_user/test_dir/new_name");

    let result = rename_service.rename_outcome(Ok(()));
    assert!(result.is_ok(), "Rename should succeed");
    assert_eq!(Ok(String::from("Successfully renamed")), result);

    let failed = rename_service.rename_outcome(Err(String::from("no such entity")));
    assert_eq!(failed, Err((400, String::from("Error: no such entity"))));
}

#[test]
fn rename_rejects_traversal() {
    let rename_service = RenameService::new(String::from("/srv/root"));
    let err = rename_service
        .rename_paths("test_user", "..", "old", "new")
        .expect_err("parent component must be rejected");
    assert_eq!(err.0, 400);
    let err = rename_service
        .rename_paths("test_user", "d", "old", "../escape")
        .expect_err("parent component in the new name must be rejected");
    assert_eq!(err.0, 400);
}

#[test]
fn save_file_outcomes() {
    let file_service = FileService::new(String::from("/srv/root"));
    let ok = file_service.save_file_outcome("/srv/root/u/test_dir/saved_bytes.txt", Ok(()));
    assert_eq!(ok, Ok(String::from("Successfully saved file!")));

    let err = file_service
        .save_file_outcome(
            "/srv/root/u/nonexistent_subdir/file_should_fail.txt",
            Err(SaveFailure::Create(String::from("No such file or directory"))),
        )
        .expect_err("Expected Err when parent directories do not exist");
    assert_eq!(err.0, 500);
    assert!(
        err.1.contains("Error creating file"),
        "Expected error creating file error; got: {}",
        err.1
    );

    let err = file_service
        .save_file_outcome("/srv/root/u/f.txt", Err(SaveFailure::Write(String::from("full"))))
        .unwrap_err();
    assert_eq!(err, (500, String::from("Error writing to file /srv/root/u/f.txt: full")));
}

#[test]
fn read_file_decisions() {
    // the read of an existing file hands the bytes back with the
    // decoded filename
    let plan = prepare_read("/srv/root", "test_user", "test_dir/", "file2.rs")
        .expect("plain parameters must decode");
    assert_eq!(plan.full_path, "/srv/root/test_user/test_dir/file2.rs");
    let got = read_outcome(&plan.filename, Some(b"Some code!".to_vec()));
    assert_eq!(got, Ok((b"Some code!".to_vec(), String::from("file2.rs"))));

    // a missing file is reported as not found
    let missing = read_outcome("file22.rs", None);
    assert_eq!(missing, Err((404, String::from("File 'file22.rs' not found"))));
}

#[test]
fn read_decodes_percent_encoding() {
    let plan = prepare_read("/srv/root", "u", "my%20dir", "a%20b.txt")
        .expect("encoded parameters must decode");
    assert_eq!(plan.filename, "a b.txt");
    assert_eq!(plan.full_path, "/srv/root/u/my dir/a b.txt");

    // traversal hidden behind percent-encoding is still caught after
    // decoding
    let err = prepare_read("/srv/root", "u", "%2E%2E", "passwd")
        .expect_err("decoded parent component must be rejected");
    assert_eq!(err.0, 400);
    assert_eq!(err.1, "Invalid file path: directory traversal detected.");
}

#[test]
fn test_check_privilege_status() {
    let mut levels = HashMap::new();
    levels.insert(String::from("admin"), 999);
    levels.insert(String::from("user"), 111);
    let privilege_service = PrivilegeService::new(MapStore { levels });

    // equal privileges
    assert!(privilege_service.check_privilege_status("user", "user").is_ok());

    // higher privileges
    assert!(privilege_service.check_privilege_status("user", "admin").is_ok());

    // lower privileges
    let result = privilege_service.check_privilege_status("admin", "user");
    assert!(result.is_err());
    assert!(result.unwrap_err().contains("Your token role is 'user'"));
}

#[test]
fn test_privilege_edge_cases() {
    let mut levels = HashMap::new();
    levels.insert(String::from("user"), 111);
    let privilege_service = PrivilegeService::new(MapStore { levels });

    // non-existent role
    let result = privilege_service.check_privilege_status("nonexistent", "user");
    assert!(result.is_err());

    // empty strings
    let result = privilege_service.check_privilege_status("", "");
    assert!(result.is_err());
}

#[test]
fn privilege_decision_messages() {
    let denied = privilege_decision("admin", "user", Ok(999), Ok(111)).unwrap_err();
    assert_eq!(denied, "Your token role is 'user', but you tried to access 'admin'");
    let unknown = privilege_decision("ghost", "user", Err(String::from("x")), Ok(1)).unwrap_err();
    assert_eq!(unknown, "The role ghost does not exist");
    let unknown = privilege_decision("admin", "ghost", Ok(1), Err(String::from("x"))).unwrap_err();
    assert_eq!(unknown, "The role ghost does not exist");
    assert!(privilege_decision("a", "b", Ok(5), Ok(5)).is_ok());
}

#[test]
fn login_decisions() {
    let hash = bcrypt::hash("hunter2", 4).expect("hashing must work");

    let ok = verify_user_credentials("alice", "hunter2", Some(hash.clone()));
    assert_eq!(ok, Ok(String::from("alice")));

    let wrong = verify_user_credentials("alice", "hunter3", Some(hash));
    assert_eq!(wrong, Err(String::from("Invalid credentials")));

    let unknown = verify_user_credentials("alice", "hunter2", None);
    assert_eq!(unknown, Err(String::from("User not found")));

    let malformed = verify_user_credentials("alice", "hunter2", Some(String::from("not a hash")));
    assert_eq!(malformed, Err(String::from("Invalid password hash")));
}

#[test]
fn test_build_dir_tree() {
    let listing = vec![
        DirEntryInfo { name: String::from("file1.txt"), kind: EntityKind::File },
        DirEntryInfo { name: String::from("file2.rs"), kind: EntityKind::File },
        DirEntryInfo { name: String::from("sub_dir"), kind: EntityKind::Directory },
    ];
    let (mut tree, pending) = build_dir_tree_level(String::from("test_dir"), &listing);
    assert_eq!(tree.name, "test_dir");
    assert_eq!(tree.files, vec!["file1.txt", "file2.rs"]);
    assert_eq!(pending, vec!["sub_dir"]);

    let sub_listing = vec![
        DirEntryInfo { name: String::from("sub_file.txt"), kind: EntityKind::File },
    ];
    let (sub_tree, sub_pending) = build_dir_tree_level(String::from("sub_dir"), &sub_listing);
    assert!(sub_pending.is_empty());
    tree.add_subtree(sub_tree);

    assert_eq!(tree.dirs.len(), 1);
    assert_eq!(tree.dirs[0].name, "sub_dir");
    assert_eq!(tree.dirs[0].files, vec!["sub_file.txt"]);
}

#[test]
fn tree_root_names() {
    assert_eq!(tree_root_name("folder/sub_folder", "test_user"), "sub_folder");
    assert_eq!(tree_root_name("", "test_user"), "test_user");
    assert_eq!(tree_root_name("///", "test_user"), "test_user");
    assert_eq!(tree_root_name("/a/", "u"), "a");
    assert_eq!(tree_root_name("dir", "u"), "dir");
}

#[test]
fn test_empty_directory_tree() {
    let (tree, pending) = build_dir_tree_level(String::from("empty_dir"), &Vec::new());
    assert_eq!(tree.name, "empty_dir");
    assert!(tree.files.is_empty());
    assert!(tree.dirs.is_empty());
    assert!(pending.is_empty());

    let fresh = DirTree::new(String::from("fresh"));
    assert_eq!(fresh.name, "fresh");
    assert!(fresh.files.is_empty());
}

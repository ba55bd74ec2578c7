use std::collections::HashMap;
use pathlock::upload::{
    UploadRequestData, MultipartField, record_field, upload_plan, trim_whitespace,
};
use pathlock::paths::join_entity_path;
use pathlock::services::{prepare_read, read_outcome};

#[test]
fn trim_whitespace_both_ends() {
    assert_eq!(trim_whitespace("  a b \n"), "a b");
    assert_eq!(trim_whitespace("\t\r\n "), "");
    assert_eq!(trim_whitespace("x"), "x");
}

#[test]
fn record_fields_in_any_order() {
    let mut data = UploadRequestData::empty();
    record_field(&mut data, MultipartField::FileField(
        String::from("ex/ample.txt"),
        b"Hello, world!".to_vec(),
    ));
    record_field(&mut data, MultipartField::UnknownField);
    record_field(&mut data, MultipartField::PathField(String::from(" some/subdir ")));
    assert_eq!(data.filename.as_deref(), Some("example.txt"));
    assert_eq!(data.file_bytes.as_deref(), Some(&b"Hello, world!"[..]));
    assert_eq!(data.path.as_deref(), Some("some/subdir"));
}

#[test]
fn upload_missing_file_field() {
    let mut data = UploadRequestData::empty();
    record_field(&mut data, MultipartField::PathField(String::from("some/subdir")));
    let err = upload_plan(data).expect_err("should fail on missing file");
    assert_eq!(err.0, 400);
    assert_eq!(err.1, "No file was provided in the request");
}

#[test]
fn upload_missing_path_field() {
    let mut data = UploadRequestData::empty();
    record_field(&mut data, MultipartField::FileField(
        String::from("example.txt"),
        b"Hello, world!".to_vec(),
    ));
    let err = upload_plan(data).expect_err("should fail on missing path");
    assert_eq!(err.0, 400);
    assert_eq!(err.1, "No path was provided in the request");
}

#[test]
fn upload_then_download_is_byte_identical() {
    // upload writes alice/a/b/c/data.bin; a later download of the same
    // path returns identical bytes
    let root = "/srv/root";
    let payload: Vec<u8> = (0..=255u8).collect();

    let mut data = UploadRequestData::empty();
    record_field(&mut data, MultipartField::PathField(String::from("a/b/c")));
    record_field(&mut data, MultipartField::FileField(
        String::from("data.bin"),
        payload.clone(),
    ));
    let plan = upload_plan(data).expect("complete request must pass");

    // the process creates the parents and writes the bytes at the
    // joined path
    let target = join_entity_path(root, "alice", &plan.target_rel, &plan.filename);
    assert_eq!(target, "/srv/root/alice/a/b/c/data.bin");
    let mut storage: HashMap<String, Vec<u8>> = HashMap::new();
    storage.insert(target, plan.bytes);

    let read = prepare_read(root, "alice", "a/b/c", "data.bin").expect("read must prepare");
    let stored = storage.get(&read.full_path).cloned();
    let (content, filename) =
        read_outcome(&read.filename, stored).expect("uploaded file must be found");
    assert_eq!(filename, "data.bin");
    assert_eq!(content, payload);
}

use std::io::Read;
use pathlock::archive::{ArchiveBuilder, WalkItem, build_archive};

fn read_back(bytes: Vec<u8>) -> Vec<(String, Vec<u8>)> {
    let cursor = std::io::Cursor::new(bytes);
    let mut archive = zip::ZipArchive::new(cursor).expect("archive must parse");
    let mut entries = Vec::new();
    for i in 0..archive.len() {
        let mut file = archive.by_index(i).expect("entry must open");
        let mut content = Vec::new();
        file.read_to_end(&mut content).expect("entry must read");
        entries.push((file.name().to_string(), content));
    }
    entries
}

#[test]
fn export_archives_every_readable_file() {
    let items = vec![
        WalkItem { rel_name: String::from("a.txt"), content: Some(b"alpha".to_vec()) },
        WalkItem { rel_name: String::from("sub/b.bin"), content: Some(vec![0u8, 1, 2, 255]) },
        WalkItem { rel_name: String::from("sub/deeper/c"), content: Some(Vec::new()) },
    ];
    let (bytes, skipped) = build_archive(items).expect("writer must not fail in memory");
    assert!(skipped.is_empty());

    let entries = read_back(bytes);
    assert_eq!(entries.len(), 3);
    assert_eq!(entries[0].0, "a.txt");
    assert_eq!(entries[0].1, b"alpha".to_vec());
    assert_eq!(entries[1].0, "sub/b.bin");
    assert_eq!(entries[1].1, vec![0u8, 1, 2, 255]);
    assert_eq!(entries[2].0, "sub/deeper/c");
    assert!(entries[2].1.is_empty());
}

#[test]
fn export_skips_unreadable_entries_and_continues() {
    let items = vec![
        WalkItem { rel_name: String::from("keep1.txt"), content: Some(b"one".to_vec()) },
        WalkItem { rel_name: String::from("gone.txt"), content: None },
        WalkItem { rel_name: String::from("keep2.txt"), content: Some(b"two".to_vec()) },
    ];
    let (bytes, skipped) = build_archive(items).expect("writer must not fail in memory");
    assert_eq!(skipped, vec![String::from("gone.txt")]);

    let entries = read_back(bytes);
    assert_eq!(entries.len(), 2);
    assert_eq!(entries[0].0, "keep1.txt");
    assert_eq!(entries[1].0, "keep2.txt");
    assert_eq!(entries[1].1, b"two".to_vec());
}

#[test]
fn empty_export_is_a_valid_empty_archive() {
    let (bytes, skipped) = build_archive(Vec::new()).expect("writer must not fail in memory");
    assert!(skipped.is_empty());
    assert!(read_back(bytes).is_empty());
}

#[test]
fn builder_appends_in_order() {
    let mut builder = ArchiveBuilder::new();
    builder.add_file("x", b"1").expect("add must succeed");
    builder.add_file("y", b"2").expect("add must succeed");
    let bytes = builder.finish().expect("finish must succeed");
    let entries = read_back(bytes);
    assert_eq!(entries.len(), 2);
    assert_eq!(entries[0].0, "x");
    assert_eq!(entries[1].0, "y");
}

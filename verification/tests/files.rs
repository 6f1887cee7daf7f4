use std::path::PathBuf;

use erudite::file::{without_root, Destination};
use erudite::{BorrowedFileConfig, BorrowedFileContent, FileConfig, FileContent};

#[test]
fn test_file_config_from_tuple2() {
    let path = PathBuf::from("foo/bar");
    let cfg: BorrowedFileConfig = (&path, "foo/bar").into();
    assert_eq!(cfg, BorrowedFileConfig::new(&path, "foo/bar"));
}

#[test]
fn runner_file_content_path() {
    let path = PathBuf::from("foo/bar");
    let content: BorrowedFileContent = BorrowedFileContent::path(&path);
    assert_eq!(content, BorrowedFileContent::from(&path));
    let content: BorrowedFileContent = (&path).into();
    assert_eq!(content, BorrowedFileContent::from(&path));
}

#[test]
fn test_file_content_string() {
    let content: BorrowedFileContent = BorrowedFileContent::string("hello world");
    assert_eq!(content, BorrowedFileContent::from("hello world".as_bytes()));
}

#[test]
fn test_file_content_bytes() {
    let bytes = vec![0xca, 0xfe, 0xba, 0xbe];
    let content: BorrowedFileContent = BorrowedFileContent::bytes(&bytes);
    assert_eq!(content, BorrowedFileContent::from(&*bytes));
}

#[test]
fn test_file_content_equality() {
    let a = PathBuf::from("a");
    let b = PathBuf::from("b");
    let path1 = BorrowedFileContent::path(&a);
    let path2 = BorrowedFileContent::path(&b);
    let bytes1 = BorrowedFileContent::bytes(b"a");
    let bytes2 = BorrowedFileContent::bytes(b"b");
    let reader1 = BorrowedFileContent::reader(&b"a"[..]);
    let reader2 = BorrowedFileContent::reader(&b"b"[..]);

    assert_eq!(path1, path1);
    assert_ne!(path1, path2);

    assert_ne!(path1, bytes1);
    assert_ne!(bytes1, path1);

    assert_ne!(path1, reader1);
    assert_ne!(reader1, path1);

    assert_eq!(bytes1, bytes1);
    assert_ne!(bytes1, bytes2);

    assert_ne!(bytes1, reader1);
    assert_ne!(reader1, bytes1);

    assert_ne!(reader1, reader2);
    assert_ne!(reader2, reader1);
}

#[test]
fn paths_are_compared_as_paths() {
    let plain = PathBuf::from("foo/bar");
    let slashes = PathBuf::from("foo//bar/");
    let one: BorrowedFileContent = BorrowedFileContent::path(&plain);
    let other: BorrowedFileContent = BorrowedFileContent::path(&slashes);
    assert_eq!(one, other);
}

fn text(dest: &Destination) -> &str {
    dest.as_path().to_str().unwrap()
}

#[test]
fn destinations_are_relative() {
    assert_eq!(text(&Destination::from("/foo/bar")), "foo/bar");
    assert_eq!(text(&Destination::from("///foo//bar/")), "foo//bar/");
    assert_eq!(text(&Destination::from("foo/bar")), "foo/bar");
    assert_eq!(text(&Destination::from("./foo")), "./foo");
    assert_eq!(text(&Destination::from("/")), "");
    assert_eq!(text(&Destination::from("")), "");
    assert_eq!(text(&Destination::from("/\u{e4}.txt")), "\u{e4}.txt");
    assert_eq!(Destination::from("/foo"), Destination::from("foo"));
    assert_eq!(Destination::from("/foo").clone(), Destination::from("foo"));
}

#[test]
fn destinations_may_be_paths() {
    assert_eq!(text(&Destination::new(PathBuf::from("/foo/bar"))), "foo/bar");
    assert_eq!(text(&Destination::new(PathBuf::from("//foo"))), "foo");
    assert_eq!(text(&Destination::new(PathBuf::from("foo/bar/"))), "foo/bar/");
    assert_eq!(text(&Destination::from(PathBuf::from("/"))), "");
}

#[test]
fn absolute_paths_have_a_root() {
    assert_eq!(without_root(&PathBuf::from("/foo/bar")), Some(PathBuf::from("foo/bar")));
    assert_eq!(without_root(&PathBuf::from("//foo")), Some(PathBuf::from("foo")));
    assert_eq!(without_root(&PathBuf::from("/")), Some(PathBuf::from("")));
    assert_eq!(without_root(&PathBuf::from("foo/bar")), None);
    assert_eq!(without_root(&PathBuf::from("./foo")), None);
}

#[test]
fn files_keep_content_and_destination() {
    let file = FileConfig::new(&b"some content"[..], "/foo.txt");
    assert_eq!(file.src(), &FileContent::Bytes(b"some content".to_vec()));
    assert_eq!(text(file.dest()), "foo.txt");
    assert_eq!(file.clone(), file);

    let path = FileContent::path(PathBuf::from("in"));
    assert_eq!(path.clone(), path);
    assert_ne!(path, FileContent::string("in"));
}

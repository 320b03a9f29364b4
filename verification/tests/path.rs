use maybe_owned_trait::MaybeOwned;
use std::path::{Path, PathBuf};

#[test]
fn path_to_owned_copies_the_path() {
    let owned: PathBuf = MaybeOwned::to_owned(Path::new("dir/file.txt"));
    assert_eq!(owned, PathBuf::from("dir/file.txt"));
}

#[test]
fn path_to_owned_keeps_every_byte() {
    let owned: PathBuf = MaybeOwned::to_owned(Path::new("a//b/./c/"));
    assert_eq!(owned.as_os_str().as_encoded_bytes(), b"a//b/./c/");
}

#[test]
fn path_borrow_is_the_path_itself() {
    let path: &Path = Path::new("a//b");
    let view: &Path = MaybeOwned::borrow(&path);
    assert_eq!(view.as_os_str().as_encoded_bytes(), b"a//b");
    assert!(std::ptr::eq(view, path));
}

#[test]
fn empty_path() {
    let owned: PathBuf = MaybeOwned::to_owned(Path::new(""));
    assert_eq!(owned, PathBuf::new());
    let buf = PathBuf::new();
    let view: &Path = MaybeOwned::borrow(&buf);
    assert_eq!(view, Path::new(""));
}

#[test]
fn path_buf_to_owned_is_the_buffer_itself() {
    let mut source = PathBuf::with_capacity(64);
    source.push("hello");
    let start = source.as_os_str().as_encoded_bytes().as_ptr() as usize;
    let owned: PathBuf = MaybeOwned::to_owned(source);
    assert_eq!(owned, PathBuf::from("hello"));
    assert_eq!(owned.capacity(), 64);
    assert_eq!(owned.as_os_str().as_encoded_bytes().as_ptr() as usize, start);
}

#[test]
fn path_buf_borrow_looks_into_the_buffer() {
    let source = PathBuf::from("a//b");
    let view: &Path = MaybeOwned::borrow(&source);
    assert_eq!(view.as_os_str().as_encoded_bytes(), b"a//b");
    assert!(std::ptr::eq(view, source.as_path()));
}

#[test]
fn path_round_trips() {
    let path: &Path = Path::new("a//b/../c");
    let through_owned = MaybeOwned::to_owned(path);
    let seen: &Path = MaybeOwned::borrow(&through_owned);
    let direct: &Path = MaybeOwned::borrow(&path);
    assert_eq!(seen.as_os_str().as_encoded_bytes(), direct.as_os_str().as_encoded_bytes());

    let buf = PathBuf::from("a//b/../c");
    let through_owned = MaybeOwned::to_owned(buf.clone());
    let seen: &Path = MaybeOwned::borrow(&through_owned);
    let direct: &Path = MaybeOwned::borrow(&buf);
    assert_eq!(seen.as_os_str().as_encoded_bytes(), direct.as_os_str().as_encoded_bytes());
}

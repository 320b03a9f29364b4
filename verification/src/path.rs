//! Filesystem paths: `&Path` and `PathBuf`.
//!
//! The owned type is `PathBuf` and the borrowed type is `&Path`. What a path
//! is worth is the sequence of its bytes, which the standard library does not
//! interpret when it converts between the two types.
use crate::MaybeOwned;
use std::path::{Path, PathBuf};
use vstd::prelude::*;

verus! {

/// `std::path::Path`, whose inside is not looked at here.
#[verifier::external_type_specification]
#[verifier::external_body]
pub struct ExPath(Path);

/// `std::path::PathBuf`, whose inside is not looked at here.
#[verifier::external_type_specification]
#[verifier::external_body]
pub struct ExPathBuf(PathBuf);

/// The bytes of a path, as `Path::as_os_str` followed by
/// `OsStr::as_encoded_bytes` gives them.
pub uninterp spec fn path_bytes(path: &Path) -> Seq<u8>;

/// The bytes of the path that a path buffer holds, as `PathBuf::as_os_str`
/// followed by `OsStr::as_encoded_bytes` gives them.
pub uninterp spec fn path_buf_bytes(buf: &PathBuf) -> Seq<u8>;

/// `Path::to_path_buf` is taken at its word, unproved: the buffer it returns
/// holds the bytes of the path it was called on.
pub assume_specification[ Path::to_path_buf ](path: &Path) -> (buf: PathBuf)
    ensures
        path_buf_bytes(&buf) == path_bytes(path),
;

/// `PathBuf::as_path` is taken at its word, unproved: the path it returns has
/// the bytes that the buffer holds.
pub assume_specification[ PathBuf::as_path ](buf: &PathBuf) -> (path: &Path)
    ensures
        path_bytes(path) == path_buf_bytes(buf),
;

impl<'s> MaybeOwned for &'s Path {
    type Owned = PathBuf;

    type Borrowed<'a> = &'a Path;

    /// A buffer with the bytes of the path.
    open spec fn is_owned_form(self, owned: PathBuf) -> bool {
        path_buf_bytes(&owned) == path_bytes(self)
    }

    /// The path itself.
    open spec fn is_borrowed_form(&self, view: &Path) -> bool {
        view == *self
    }

    /// Copies the path into a new buffer:
    /// `path_buf_bytes(&owned) == path_bytes(self)`, as
    /// [`is_owned_form`](MaybeOwned::is_owned_form) has it.
    fn to_owned(self) -> (owned: PathBuf) {
        self.to_path_buf()
    }

    fn borrow(&self) -> (view: &Path)
        ensures
            view == *self,
    {
        self
    }
}

impl MaybeOwned for PathBuf {
    type Owned = PathBuf;

    type Borrowed<'a> = &'a Path;

    /// The buffer itself.
    open spec fn is_owned_form(self, owned: PathBuf) -> bool {
        owned == self
    }

    /// A path with the bytes that the buffer holds.
    open spec fn is_borrowed_form(&self, view: &Path) -> bool {
        path_bytes(view) == path_buf_bytes(self)
    }

    fn to_owned(self) -> (owned: PathBuf)
        ensures
            owned == self,
    {
        self
    }

    fn borrow(&self) -> (view: &Path)
        ensures
            path_bytes(view) == path_buf_bytes(self),
    {
        self.as_path()
    }
}

/// Borrowing the owned form of a path shows the bytes that borrowing the path
/// shows.
pub proof fn path_round_trip(value: &Path, owned: PathBuf, through_owned: &Path, direct: &Path)
    requires
        value.is_owned_form(owned),
        owned.is_borrowed_form(through_owned),
        value.is_borrowed_form(direct),
    ensures
        path_bytes(through_owned) == path_bytes(direct),
{
}

/// Borrowing the owned form of a path buffer shows the bytes that borrowing
/// the buffer shows.
pub proof fn path_buf_round_trip(
    value: PathBuf,
    owned: PathBuf,
    through_owned: &Path,
    direct: &Path,
)
    requires
        value.is_owned_form(owned),
        owned.is_borrowed_form(through_owned),
        value.is_borrowed_form(direct),
    ensures
        path_bytes(through_owned) == path_bytes(direct),
{
}

} // verus!

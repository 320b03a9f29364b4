//! One interface over values that own their data and values that borrow it.
//!
//! A routine that takes `impl MaybeOwned<Owned = String>` accepts a `String`, a
//! `&str` or a copy-on-write string alike. It calls [`MaybeOwned::to_owned`]
//! where it keeps the data and [`MaybeOwned::borrow`] where it only reads it,
//! so the copy is made only where it is needed.
//!
//! Each binding says, through the two relations of the trait, which results
//! its conversions can give. The modules hold the bindings: [`text`] for
//! strings, [`sequence`] for slices and vectors, [`path`] for filesystem paths
//! and [`compact`] for the copy-on-write strings of the `beef` crate.
use vstd::prelude::*;

pub mod compact;
pub mod path;
pub mod sequence;
pub mod text;

verus! {

/// Either an owned or a borrowed value.
///
/// An implementation fixes one owning type, [`Owned`](MaybeOwned::Owned), and
/// one family of views, [`Borrowed`](MaybeOwned::Borrowed), and says with
/// [`is_owned_form`](MaybeOwned::is_owned_form) and
/// [`is_borrowed_form`](MaybeOwned::is_borrowed_form) which values of them
/// stand for the same data as `self`. The two conversions promise results
/// within those relations.
///
/// A view never outlives the data it points into: `borrow` hands it out for
/// the lifetime of the reference it was called on, and an implementation on a
/// type that itself borrows for `'s` can only build the view from that
/// reference, so `'s` outlives the view.
pub trait MaybeOwned {
    /// The owned type.
    type Owned;

    /// The borrowed type.
    type Borrowed<'a>;

    /// Whether `owned` is what [`to_owned`](MaybeOwned::to_owned) may return for `self`.
    spec fn is_owned_form(self, owned: Self::Owned) -> bool;

    /// Whether `view` is what [`borrow`](MaybeOwned::borrow) may return for `self`.
    spec fn is_borrowed_form(&self, view: Self::Borrowed<'_>) -> bool;

    /// Convert to owned type. A no-op if already owned.
    fn to_owned(self) -> (owned: Self::Owned)
        ensures
            self.is_owned_form(owned),
    ;

    /// Borrow as borrowed type.
    fn borrow(&self) -> (view: Self::Borrowed<'_>)
        ensures
            self.is_borrowed_form(view),
    ;
}

} // verus!

//! Sequences: `&[T]` and `Vec<T>`.
//!
//! The owned type is `Vec<T>` and the borrowed type is `&[T]`. A slice becomes
//! a vector by cloning each element, so what the copy holds is what `T`'s
//! `clone` gives. The element type holds no borrowed data (`T: 'static`):
//! a view `&'a [T]` is then well formed for every `'a`.
use crate::MaybeOwned;
use vstd::prelude::*;

verus! {

/// Whether `copy` holds, position by position, a clone of what `source` holds.
pub open spec fn cloned_elementwise<T: Clone>(source: Seq<T>, copy: Seq<T>) -> bool {
    &&& copy.len() == source.len()
    &&& forall|i: int| 0 <= i < source.len() ==> cloned::<T>(#[trigger] source[i], copy[i])
}

/// Whether every clone of every element of `source` equals that element.
pub open spec fn clones_faithfully<T: Clone>(source: Seq<T>) -> bool {
    forall|i: int, copy: T|
        0 <= i < source.len() && #[trigger] cloned::<T>(source[i], copy) ==> copy == source[i]
}

impl<'s, T: Clone + 'static> MaybeOwned for &'s [T] {
    type Owned = Vec<T>;

    type Borrowed<'a> = &'a [T];

    /// A vector as long as the slice that holds a clone of each element in its place.
    open spec fn is_owned_form(self, owned: Vec<T>) -> bool {
        cloned_elementwise(self@, owned@)
    }

    /// The slice itself.
    open spec fn is_borrowed_form(&self, view: &[T]) -> bool {
        view == *self
    }

    /// Clones the elements into a new vector, allocated once at the length
    /// of the slice: `cloned_elementwise(self@, owned@)`, as
    /// [`is_owned_form`](MaybeOwned::is_owned_form) has it.
    fn to_owned(self) -> (owned: Vec<T>) {
        let mut owned = Vec::with_capacity(self.len());
        owned.extend_from_slice(self);
        owned
    }

    fn borrow(&self) -> (view: &[T])
        ensures
            view == *self,
    {
        self
    }
}

impl<T: 'static> MaybeOwned for Vec<T> {
    type Owned = Vec<T>;

    type Borrowed<'a> = &'a [T];

    /// The vector itself.
    open spec fn is_owned_form(self, owned: Vec<T>) -> bool {
        owned == self
    }

    /// A slice with the elements of the vector.
    open spec fn is_borrowed_form(&self, view: &[T]) -> bool {
        view@ == self@
    }

    fn to_owned(self) -> (owned: Vec<T>)
        ensures
            owned == self,
    {
        self
    }

    fn borrow(&self) -> (view: &[T])
        ensures
            view@ == self@,
    {
        self.as_slice()
    }
}

/// Borrowing the owned form of a slice shows, position by position, a clone of
/// what borrowing the slice shows.
pub proof fn slice_round_trip_cloned<T: Clone + 'static>(
    value: &[T],
    owned: Vec<T>,
    through_owned: &[T],
    direct: &[T],
)
    requires
        value.is_owned_form(owned),
        owned.is_borrowed_form(through_owned),
        value.is_borrowed_form(direct),
    ensures
        cloned_elementwise(direct@, through_owned@),
{
}

/// Where every clone of an element of the slice equals the element, borrowing
/// the owned form of the slice shows the elements that borrowing the slice
/// shows.
pub proof fn slice_round_trip<T: Clone + 'static>(
    value: &[T],
    owned: Vec<T>,
    through_owned: &[T],
    direct: &[T],
)
    requires
        clones_faithfully(value@),
        value.is_owned_form(owned),
        owned.is_borrowed_form(through_owned),
        value.is_borrowed_form(direct),
    ensures
        through_owned@ == direct@,
{
    assert(through_owned@ =~= direct@);
}

/// Borrowing the owned form of a vector shows the elements that borrowing the
/// vector shows.
pub proof fn vec_round_trip<T: 'static>(
    value: Vec<T>,
    owned: Vec<T>,
    through_owned: &[T],
    direct: &[T],
)
    requires
        value.is_owned_form(owned),
        owned.is_borrowed_form(through_owned),
        value.is_borrowed_form(direct),
    ensures
        through_owned@ == direct@,
{
}

} // verus!

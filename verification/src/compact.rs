//! Compact copy-on-write strings, kept by the `beef` crate.
//!
//! `beef` has two of them: `beef::Cow`, three words wide, and
//! `beef::lean::Cow`, two words wide, which packs length and capacity into one
//! word of 32 bits each. Its generic type is bounded by traits that the crate
//! keeps private, so the two are held here inside [`WideCow`] and [`LeanCow`].
//! The owned type is `String` and the borrowed type is `&str`; what such a
//! string is worth is its view, the sequence of its characters.
use crate::MaybeOwned;
use vstd::prelude::*;

verus! {

/// The longest text, in bytes, that the two-word form can hold.
pub const LEAN_MAX_BYTES: usize = 0xFFFF_FFFF;

/// A three-word copy-on-write string: a `beef::Cow<'s, str>`.
#[verifier::external_body]
pub struct WideCow<'s> {
    inner: beef::Cow<'s, str>,
}

/// A two-word copy-on-write string: a `beef::lean::Cow<'s, str>`.
#[verifier::external_body]
pub struct LeanCow<'s> {
    inner: beef::lean::Cow<'s, str>,
}

/// The characters of the text that a three-word copy-on-write string holds,
/// borrowed or owned.
pub uninterp spec fn wide_text(cow: &WideCow) -> Seq<char>;

/// The characters of the text that a two-word copy-on-write string holds,
/// borrowed or owned.
pub uninterp spec fn lean_text(cow: &LeanCow) -> Seq<char>;

impl<'s> View for WideCow<'s> {
    type V = Seq<char>;

    open spec fn view(&self) -> Seq<char> {
        wide_text(self)
    }
}

impl<'s> View for LeanCow<'s> {
    type V = Seq<char>;

    open spec fn view(&self) -> Seq<char> {
        lean_text(self)
    }
}

/// `beef::Cow::borrowed`, unproved: the result holds the text of the slice.
#[verifier::external_body]
fn wide_borrowed<'s>(text: &'s str) -> (cow: WideCow<'s>)
    ensures
        wide_text(&cow) == text@,
{
    WideCow { inner: beef::Cow::borrowed(text) }
}

/// `beef::Cow::owned`, unproved: the result holds the text of the string.
#[verifier::external_body]
fn wide_owned<'s>(text: String) -> (cow: WideCow<'s>)
    ensures
        wide_text(&cow) == text@,
{
    WideCow { inner: beef::Cow::owned(text) }
}

/// `beef::Cow::into_owned`, unproved: the string has the text that was held.
#[verifier::external_body]
fn wide_into_owned(cow: WideCow) -> (owned: String)
    ensures
        owned@ == wide_text(&cow),
{
    cow.inner.into_owned()
}

/// `AsRef::as_ref` of `beef::Cow`, unproved: the slice has the text that is held.
#[verifier::external_body]
fn wide_as_ref<'a>(cow: &'a WideCow) -> (view: &'a str)
    ensures
        view@ == wide_text(cow),
{
    cow.inner.as_ref()
}

/// `beef::lean::Cow::borrowed`, unproved: the result holds the text of the
/// slice. It keeps the low 32 bits of the length, so a longer slice is left out.
#[verifier::external_body]
fn lean_borrowed<'s>(text: &'s str) -> (cow: LeanCow<'s>)
    requires
        text.len() <= LEAN_MAX_BYTES,
    ensures
        lean_text(&cow) == text@,
{
    LeanCow { inner: beef::lean::Cow::borrowed(text) }
}

/// `beef::lean::Cow::into_owned`, unproved: the string has the text that was held.
#[verifier::external_body]
fn lean_into_owned(cow: LeanCow) -> (owned: String)
    ensures
        owned@ == lean_text(&cow),
{
    cow.inner.into_owned()
}

/// `AsRef::as_ref` of `beef::lean::Cow`, unproved: the slice has the text that is held.
#[verifier::external_body]
fn lean_as_ref<'a>(cow: &'a LeanCow) -> (view: &'a str)
    ensures
        view@ == lean_text(cow),
{
    cow.inner.as_ref()
}

impl<'s> WideCow<'s> {
    /// A copy-on-write string that borrows `text`.
    pub fn borrowed(text: &'s str) -> (cow: Self)
        ensures
            cow@ == text@,
    {
        wide_borrowed(text)
    }

    /// A copy-on-write string that owns `text`.
    pub fn owned(text: String) -> (cow: Self)
        ensures
            cow@ == text@,
    {
        wide_owned(text)
    }
}

impl<'s> LeanCow<'s> {
    /// A copy-on-write string that borrows `text`, where the two-word form
    /// can hold a text of that length.
    pub fn borrowed(text: &'s str) -> (cow: Option<Self>)
        ensures
            cow is Some <==> text.len() <= LEAN_MAX_BYTES,
            cow is Some ==> cow->0@ == text@,
    {
        if text.len() <= LEAN_MAX_BYTES {
            Some(lean_borrowed(text))
        } else {
            None
        }
    }
}

impl<'s> MaybeOwned for WideCow<'s> {
    type Owned = String;

    type Borrowed<'a> = &'a str;

    /// A string with the characters of what is held.
    open spec fn is_owned_form(self, owned: String) -> bool {
        owned@ == self@
    }

    /// A slice with the characters of what is held.
    open spec fn is_borrowed_form(&self, view: &str) -> bool {
        view@ == self@
    }

    fn to_owned(self) -> (owned: String)
        ensures
            owned@ == self@,
    {
        wide_into_owned(self)
    }

    fn borrow(&self) -> (view: &str)
        ensures
            view@ == self@,
    {
        wide_as_ref(self)
    }
}

impl<'s> MaybeOwned for LeanCow<'s> {
    type Owned = String;

    type Borrowed<'a> = &'a str;

    /// A string with the characters of what is held.
    open spec fn is_owned_form(self, owned: String) -> bool {
        owned@ == self@
    }

    /// A slice with the characters of what is held.
    open spec fn is_borrowed_form(&self, view: &str) -> bool {
        view@ == self@
    }

    fn to_owned(self) -> (owned: String)
        ensures
            owned@ == self@,
    {
        lean_into_owned(self)
    }

    fn borrow(&self) -> (view: &str)
        ensures
            view@ == self@,
    {
        lean_as_ref(self)
    }
}

/// Borrowing the owned form of a three-word copy-on-write string shows the
/// characters that borrowing the copy-on-write string shows.
pub proof fn wide_round_trip(value: WideCow, owned: String, through_owned: &str, direct: &str)
    requires
        value.is_owned_form(owned),
        owned.is_borrowed_form(through_owned),
        value.is_borrowed_form(direct),
    ensures
        through_owned@ == direct@,
{
}

/// Borrowing the owned form of a two-word copy-on-write string shows the
/// characters that borrowing the copy-on-write string shows.
pub proof fn lean_round_trip(value: LeanCow, owned: String, through_owned: &str, direct: &str)
    requires
        value.is_owned_form(owned),
        owned.is_borrowed_form(through_owned),
        value.is_borrowed_form(direct),
    ensures
        through_owned@ == direct@,
{
}

} // verus!

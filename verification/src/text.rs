//! Strings: `&str`, `String` and the standard copy-on-write string.
//!
//! The owned type is `String` and the borrowed type is `&str` throughout. What
//! a string is worth is its view, the sequence of its characters.
use crate::MaybeOwned;
use std::borrow::Cow;
use vstd::prelude::*;

verus! {

impl<'s> MaybeOwned for &'s str {
    type Owned = String;

    type Borrowed<'a> = &'a str;

    /// A string with the characters of the slice.
    open spec fn is_owned_form(self, owned: String) -> bool {
        owned@ == self@
    }

    /// The slice itself.
    open spec fn is_borrowed_form(&self, view: &str) -> bool {
        view == *self
    }

    /// Copies the slice into a new string: `owned@ == self@`, as
    /// [`is_owned_form`](MaybeOwned::is_owned_form) has it.
    fn to_owned(self) -> (owned: String) {
        broadcast use vstd::string::to_string_from_display_ensures_for_str;

        self.to_string()
    }

    fn borrow(&self) -> (view: &str)
        ensures
            view == *self,
    {
        self
    }
}

impl MaybeOwned for String {
    type Owned = String;

    type Borrowed<'a> = &'a str;

    /// The string itself.
    open spec fn is_owned_form(self, owned: String) -> bool {
        owned == self
    }

    /// A slice with the characters of the string.
    open spec fn is_borrowed_form(&self, view: &str) -> bool {
        view@ == self@
    }

    fn to_owned(self) -> (owned: String)
        ensures
            owned == self,
    {
        self
    }

    fn borrow(&self) -> (view: &str)
        ensures
            view@ == self@,
    {
        self.as_str()
    }
}

impl<'s> MaybeOwned for Cow<'s, str> {
    type Owned = String;

    type Borrowed<'a> = &'a str;

    /// The string that is held, or one with the characters of the slice that is held.
    open spec fn is_owned_form(self, owned: String) -> bool {
        match self {
            Cow::Borrowed(held) => owned@ == held@,
            Cow::Owned(held) => owned == held,
        }
    }

    /// A slice with the characters of what is held.
    open spec fn is_borrowed_form(&self, view: &str) -> bool {
        view@ == self@
    }

    fn to_owned(self) -> (owned: String)
        ensures
            match self {
                Cow::Borrowed(held) => owned@ == held@,
                Cow::Owned(held) => owned == held,
            },
    {
        match self {
            Cow::Borrowed(held) => MaybeOwned::to_owned(held),
            Cow::Owned(held) => held,
        }
    }

    fn borrow(&self) -> (view: &str)
        ensures
            view@ == self@,
    {
        match self {
            Cow::Borrowed(held) => held,
            Cow::Owned(held) => held.as_str(),
        }
    }
}

/// Borrowing the owned form of a string slice shows the characters that
/// borrowing the slice shows.
pub proof fn str_round_trip(value: &str, owned: String, through_owned: &str, direct: &str)
    requires
        value.is_owned_form(owned),
        owned.is_borrowed_form(through_owned),
        value.is_borrowed_form(direct),
    ensures
        through_owned@ == direct@,
{
}

/// Borrowing the owned form of a string shows the characters that borrowing
/// the string shows.
pub proof fn string_round_trip(value: String, owned: String, through_owned: &str, direct: &str)
    requires
        value.is_owned_form(owned),
        owned.is_borrowed_form(through_owned),
        value.is_borrowed_form(direct),
    ensures
        through_owned@ == direct@,
{
}

/// Borrowing the owned form of a copy-on-write string shows the characters
/// that borrowing the copy-on-write string shows, whichever variant it is.
pub proof fn cow_round_trip(value: Cow<str>, owned: String, through_owned: &str, direct: &str)
    requires
        value.is_owned_form(owned),
        owned.is_borrowed_form(through_owned),
        value.is_borrowed_form(direct),
    ensures
        through_owned@ == direct@,
{
}

} // verus!

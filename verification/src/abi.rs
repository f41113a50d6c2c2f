//! Boundary-safe value types: an owned text buffer and borrowed views of
//! text and of slices. A value of these types is what crosses between the
//! host and a loaded module, so each is plain data with explicit
//! construction and read-back and no hidden behaviour.

use vstd::prelude::*;

verus! {

/// Owned text buffer handed across the boundary. Construction takes
/// ownership of the text; `into_string` gives it back; reading back always
/// yields exactly the text it was built from.
pub struct FfiSafeString {
    text: String,
}

impl View for FfiSafeString {
    type V = Seq<char>;

    closed spec fn view(&self) -> Seq<char> {
        self.text@
    }
}

impl FfiSafeString {
    /// Takes ownership of `s`; the new value reads back as exactly `s`.
    pub fn new(s: String) -> (r: Self)
        ensures
            r@ == s@,
    {
        FfiSafeString { text: s }
    }

    /// Releases the buffer, handing the owned text back unchanged.
    pub fn into_string(self) -> (r: String)
        ensures
            r@ == self@,
    {
        self.text
    }

    /// Borrows the held text without giving up ownership.
    pub fn as_str(&self) -> (r: &str)
        ensures
            r@ == self@,
    {
        self.text.as_str()
    }
}

/// Borrowed view of text owned elsewhere; valid only as long as the borrow
/// it was constructed from.
pub struct FfiSafeStr<'a> {
    text: &'a str,
}

impl<'a> View for FfiSafeStr<'a> {
    type V = Seq<char>;

    closed spec fn view(&self) -> Seq<char> {
        self.text@
    }
}

impl<'a> FfiSafeStr<'a> {
    /// Builds a view of `s` without copying.
    pub fn new(s: &'a str) -> (r: Self)
        ensures
            r@ == s@,
    {
        FfiSafeStr { text: s }
    }

    /// Reads the viewed text back; it is exactly the text viewed at
    /// construction.
    pub fn as_str(&self) -> (r: &'a str)
        ensures
            r@ == self@,
    {
        self.text
    }
}

/// Borrowed view of a slice owned elsewhere; valid only as long as the
/// borrow it was constructed from.
pub struct FfiSafeSlice<'a, T> {
    items: &'a [T],
}

impl<'a, T> View for FfiSafeSlice<'a, T> {
    type V = Seq<T>;

    closed spec fn view(&self) -> Seq<T> {
        self.items@
    }
}

impl<'a, T> FfiSafeSlice<'a, T> {
    /// Builds a view of `s` without copying.
    pub fn new(s: &'a [T]) -> (r: Self)
        ensures
            r@ == s@,
    {
        FfiSafeSlice { items: s }
    }

    /// Reads the viewed slice back; it is exactly the slice viewed at
    /// construction.
    pub fn as_slice(&self) -> (r: &'a [T])
        ensures
            r@ == self@,
    {
        self.items
    }
}

} // verus!

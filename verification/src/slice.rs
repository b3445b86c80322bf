//! A borrowed view into a text buffer that is compared and hashed by what it
//! holds. The borrow ties the view to its buffer, so it cannot outlive it.

use vstd::prelude::*;
use vstd::std_specs::cmp::PartialEqSpecImpl;
use vstd::std_specs::convert::FromSpecImpl;
use crate::text::str_eq;

verus! {

/// A view into a text buffer.
#[derive(Clone, Copy, Debug, Hash)]
pub struct UnsafeSlice<'a> {
    pub text: &'a str,
}

impl<'a> View for UnsafeSlice<'a> {
    type V = Seq<char>;

    open spec fn view(&self) -> Seq<char> {
        self.text@
    }
}

impl<'a> UnsafeSlice<'a> {
    /// The length of the view in bytes, as `str::len` counts them.
    pub fn len(&self) -> (n: usize)
        ensures
            n == self.text.len(),
    {
        self.text.len()
    }

    /// The text that the view holds.
    pub fn as_str(&self) -> (text: &'a str)
        ensures
            text@ == self@,
            text == self.text,
    {
        self.text
    }
}

impl<'a> From<&'a str> for UnsafeSlice<'a> {
    fn from(value: &'a str) -> (slice: UnsafeSlice<'a>) {
        UnsafeSlice { text: value }
    }
}

impl<'a> FromSpecImpl<&'a str> for UnsafeSlice<'a> {
    open spec fn obeys_from_spec() -> bool {
        true
    }

    open spec fn from_spec(value: &'a str) -> Self {
        UnsafeSlice { text: value }
    }
}

/// Two views are equal exactly when they hold the same text, wherever they
/// point.
impl<'a> PartialEq for UnsafeSlice<'a> {
    fn eq(&self, other: &UnsafeSlice<'a>) -> (same: bool) {
        str_eq(self.text, other.text)
    }
}

impl<'a> PartialEqSpecImpl for UnsafeSlice<'a> {
    open spec fn obeys_eq_spec() -> bool {
        true
    }

    open spec fn eq_spec(&self, other: &UnsafeSlice<'a>) -> bool {
        self.text@ == other.text@
    }
}

impl<'a> Eq for UnsafeSlice<'a> {

}

} // verus!

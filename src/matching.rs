use vstd::prelude::*;

verus! {

/// `needle` occurs in `haystack` as a run of consecutive characters.
pub open spec fn occurs_in(needle: Seq<char>, haystack: Seq<char>) -> bool {
    exists|i: int|
        0 <= i <= haystack.len() - needle.len() && #[trigger] haystack.subrange(
            i,
            i + needle.len(),
        ) == needle
}

/// Relies on `str::contains` with a `&str` pattern: whether `needle` occurs
/// in `haystack`.
#[verifier::external_body]
fn str_contains(haystack: &str, needle: &str) -> (r: bool)
    ensures
        r == occurs_in(needle@, haystack@),
{
    haystack.contains(needle)
}

/// An expectation that a text holds `value`.
pub struct Contains<T> {
    value: T,
}

/// The expectation that a text holds `value`.
pub fn contain<T>(value: T) -> (r: Contains<T>)
    ensures
        r.expected() == value,
{
    Contains { value }
}

impl<T> Contains<T> {
    /// What the text is expected to hold.
    pub closed spec fn expected(&self) -> T {
        self.value
    }

    /// What the text is expected to hold.
    pub fn value(&self) -> (r: &T)
        ensures
            *r == self.expected(),
    {
        &self.value
    }
}

impl Contains<String> {
    /// Whether `actual` holds the expected text.
    pub fn matches(&self, actual: &String) -> (r: bool)
        ensures
            r == occurs_in(self.expected()@, actual@),
    {
        str_contains(actual.as_str(), self.value.as_str())
    }
}

} // verus!

//! Character-sequence predicates and thin wrappers over the string
//! operations of std that the selection heuristic needs.

use vstd::prelude::*;

verus! {

/// `needle` occurs somewhere inside `hay` as a contiguous run.
pub open spec fn contains_seq(hay: Seq<char>, needle: Seq<char>) -> bool {
    exists|i: int|
        0 <= i && i + needle.len() <= hay.len() && #[trigger] hay.subrange(i, i + needle.len())
            == needle
}

/// `suffix` is a suffix of `s`.
pub open spec fn ends_with_seq(s: Seq<char>, suffix: Seq<char>) -> bool {
    s.len() >= suffix.len() && s.subrange(s.len() - suffix.len(), s.len() as int) == suffix
}

/// The character sequence that `str::to_lowercase` yields for `s`. The full
/// Unicode mapping is not written out here; contracts relate results to this
/// name instead.
pub uninterp spec fn lower_of(s: Seq<char>) -> Seq<char>;

/// Relies on `str::to_lowercase`: the result depends on the characters alone.
#[verifier::external_body]
pub(crate) fn lowercase(s: &str) -> (r: String)
    ensures
        r@ == lower_of(s@),
{
    s.to_lowercase()
}

/// Relies on `str::contains` with a `&str` pattern: true exactly when the
/// pattern occurs as a substring.
#[verifier::external_body]
pub(crate) fn str_contains(hay: &str, needle: &str) -> (r: bool)
    ensures
        r == contains_seq(hay@, needle@),
{
    hay.contains(needle)
}

/// Relies on `str::ends_with` with a `&str` pattern: true exactly when the
/// pattern is a suffix.
#[verifier::external_body]
pub(crate) fn str_ends_with(s: &str, suffix: &str) -> (r: bool)
    ensures
        r == ends_with_seq(s@, suffix@),
{
    s.ends_with(suffix)
}

/// Relies on `str::strip_suffix`: for a string shown to end with `suffix`,
/// returns everything before that suffix.
#[verifier::external_body]
pub(crate) fn strip_suffix_of(s: &str, suffix: &str) -> (r: String)
    requires
        ends_with_seq(s@, suffix@),
    ensures
        r@ == s@.subrange(0, s@.len() - suffix@.len()),
{
    match s.strip_suffix(suffix) {
        Some(p) => p.to_string(),
        None => s.to_string(),
    }
}

} // verus!

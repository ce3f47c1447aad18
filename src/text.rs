use vstd::prelude::*;

verus! {

/// What `str::to_lowercase` makes of a string.
pub uninterp spec fn lower_of(s: Seq<char>) -> Seq<char>;

/// True when `q` occurs as a contiguous run of characters inside `t`.
pub open spec fn is_infix(q: Seq<char>, t: Seq<char>) -> bool {
    exists|i: int| 0 <= i && i + q.len() <= t.len() && #[trigger] t.subrange(i, i + q.len()) == q
}

/// Relies on validator::validate_length: with only a minimum given, it
/// holds when the string has at least that many characters.
#[verifier::external_body]
pub(crate) fn has_min_chars(s: &str, min: u64) -> (r: bool)
    ensures
        r == (s@.len() >= min),
{
    validator::validate_length(s, Some(min), None, None)
}

/// Relies on str::to_lowercase: the result depends on the characters alone.
#[verifier::external_body]
pub(crate) fn lowercase(s: &str) -> (r: String)
    ensures
        r@ == lower_of(s@),
        s@.len() == 0 ==> r@.len() == 0,
{
    s.to_lowercase()
}

/// Relies on str::contains with a string pattern: true when the pattern
/// matches a sub-slice of the string.
#[verifier::external_body]
pub(crate) fn contains_str(t: &str, q: &str) -> (r: bool)
    ensures
        r == is_infix(q@, t@),
{
    t.contains(q)
}

/// Whether a hospital whose city and name have already been lower-cased
/// answers a lower-cased search query.
pub fn matches_lowered(query: &str, city: &str, name: &str) -> (r: bool)
    ensures
        r == (is_infix(query@, city@) || is_infix(query@, name@)),
{
    contains_str(city, query) || contains_str(name, query)
}

} // verus!

//! Shared text helpers: ASCII case-insensitive comparison (for the adapters
//! that parse variant names), the whitespace predicate used when deriving
//! avatar initials, and upper-casing of the derived initials.

use vstd::prelude::*;

verus! {

use vstd::string::StrSliceExecFns;

/// Whether `c` is a whitespace character (the Unicode `White_Space` set),
/// the separator used when splitting alt text into words.
pub open spec fn is_space_char(c: char) -> bool {
    c == ' ' || c == '\t' || c == '\n' || c == '\u{b}' || c == '\u{c}' || c == '\r'
        || c == '\u{85}' || c == '\u{a0}' || c == '\u{1680}' || c == '\u{2000}'
        || c == '\u{2001}' || c == '\u{2002}' || c == '\u{2003}' || c == '\u{2004}'
        || c == '\u{2005}' || c == '\u{2006}' || c == '\u{2007}' || c == '\u{2008}'
        || c == '\u{2009}' || c == '\u{200a}' || c == '\u{2028}' || c == '\u{2029}'
        || c == '\u{202f}' || c == '\u{205f}' || c == '\u{3000}'
}

/// Decides `is_space_char`.
pub fn is_space(c: char) -> (r: bool)
    ensures
        r == is_space_char(c),
{
    c == ' ' || c == '\t' || c == '\n' || c == '\u{b}' || c == '\u{c}' || c == '\r'
        || c == '\u{85}' || c == '\u{a0}' || c == '\u{1680}' || c == '\u{2000}'
        || c == '\u{2001}' || c == '\u{2002}' || c == '\u{2003}' || c == '\u{2004}'
        || c == '\u{2005}' || c == '\u{2006}' || c == '\u{2007}' || c == '\u{2008}'
        || c == '\u{2009}' || c == '\u{200a}' || c == '\u{2028}' || c == '\u{2029}'
        || c == '\u{202f}' || c == '\u{205f}' || c == '\u{3000}'
}

/// Whether `c` matches pattern character `p` ignoring ASCII case, where `p`
/// is already lower case: either they are equal, or `p` is an ASCII lower
/// case letter and `c` is its upper case form.
pub open spec fn char_matches_ci(c: char, p: char) -> bool {
    c == p || (97 <= p as u32 <= 122 && c as u32 + 32 == p as u32)
}

/// Decides `char_matches_ci`.
pub fn char_eq_ci(c: char, p: char) -> (r: bool)
    ensures
        r == char_matches_ci(c, p),
{
    c == p || (97 <= p as u32 && p as u32 <= 122 && (c as u32) + 32 == p as u32)
}

/// Whether `s` matches the all-lower-case pattern `p` ignoring ASCII case:
/// same length, and each character matches the pattern character at its
/// position.
pub open spec fn seq_matches_ci(s: Seq<char>, p: Seq<char>) -> bool {
    s.len() == p.len() && (forall|i: int| 0 <= i < s.len() ==> char_matches_ci(s[i], #[trigger] p[i]))
}

/// Decides `seq_matches_ci` on string slices.
pub fn str_eq_ci(s: &str, p: &str) -> (r: bool)
    ensures
        r == seq_matches_ci(s@, p@),
{
    let n = s.unicode_len();
    if n != p.unicode_len() {
        return false;
    }
    let mut i: usize = 0;
    while i < n
        invariant
            i <= n,
            n == s@.len(),
            n == p@.len(),
            forall|j: int| 0 <= j < i ==> char_matches_ci(s@[j], #[trigger] p@[j]),
        decreases n - i,
    {
        if !char_eq_ci(s.get_char(i), p.get_char(i)) {
            return false;
        }
        i += 1;
    }
    true
}

/// The view of an optional extra-class argument.
pub open spec fn opt_view(o: Option<String>) -> Option<Seq<char>> {
    match o {
        Some(s) => Some(s@),
        None => None,
    }
}

/// The upper-case form of a character sequence, as `str::to_uppercase`
/// computes it.
pub uninterp spec fn upper_of(s: Seq<char>) -> Seq<char>;

/// Relies on `str::to_uppercase`: the result is the upper-case equivalent of
/// the input, a function of the input characters alone, and an empty input
/// gives an empty result.
#[verifier::external_body]
pub fn to_upper(s: &str) -> (r: String)
    ensures
        r@ == upper_of(s@),
        s@.len() == 0 ==> r@.len() == 0,
{
    s.to_uppercase()
}

} // verus!

//! Small string helpers shared by the library's modules.

use vstd::prelude::*;

verus! {

/// Whether two string slices hold the same characters.
pub fn str_eq(a: &str, b: &str) -> (r: bool)
    ensures
        r == (a@ == b@),
{
    let x = a.to_owned();
    let y = b.to_owned();
    x == y
}

/// Whether `p` is a prefix of `s`.
pub open spec fn has_prefix(s: Seq<char>, p: Seq<char>) -> bool {
    s.len() >= p.len() && s.subrange(0, p.len() as int) == p
}

/// `has_prefix`, executably.
pub fn str_has_prefix(s: &str, p: &str) -> (r: bool)
    ensures
        r == has_prefix(s@, p@),
{
    let s_len = s.unicode_len();
    let p_len = p.unicode_len();
    if s_len < p_len {
        return false;
    }
    let head = s.substring_char(0, p_len);
    str_eq(head, p)
}

/// Whether a string starts with `-`.
pub open spec fn starts_with_dash(s: Seq<char>) -> bool {
    s.len() > 0 && s[0] == '-'
}

/// `starts_with_dash`, executably.
pub fn str_starts_with_dash(s: &str) -> (r: bool)
    ensures
        r == starts_with_dash(s@),
{
    s.unicode_len() > 0 && s.get_char(0) == '-'
}

} // verus!

//! Strings: what the standard library does to them, and the pieces of text
//! that the rest of the crate builds on.

use vstd::prelude::*;
use vstd::string::StringExecFns;

verus! {

/// `String::push` appends the given character to the end of the string.
pub assume_specification[ String::push ](s: &mut String, ch: char)
    ensures
        final(s)@ == old(s)@.push(ch),
;

/// Whether `c` has the Unicode property `White_Space`, as `char::is_whitespace`
/// tells.
pub uninterp spec fn white_space(c: char) -> bool;

/// What `str::to_lowercase` returns for a string of these characters.
pub uninterp spec fn lowercase_of(s: Seq<char>) -> Seq<char>;

/// How many characters at the start of `s` are white space.
pub open spec fn leading_white_space(s: Seq<char>) -> nat
    decreases s.len(),
{
    if s.len() > 0 && white_space(s[0]) {
        1 + leading_white_space(s.drop_first())
    } else {
        0
    }
}

/// How many characters at the end of `s` are white space.
pub open spec fn trailing_white_space(s: Seq<char>) -> nat
    decreases s.len(),
{
    if s.len() > 0 && white_space(s.last()) {
        1 + trailing_white_space(s.drop_last())
    } else {
        0
    }
}

/// `s` without the white space at its start and at its end.
pub open spec fn trimmed(s: Seq<char>) -> Seq<char> {
    let rest = s.skip(leading_white_space(s) as int);
    rest.take(rest.len() - trailing_white_space(rest))
}

/// `str::trim`: the string without its leading and trailing white space, so
/// that what is left neither starts nor ends with white space.
#[verifier::external_body]
pub(crate) fn trim(s: &str) -> (r: &str)
    ensures
        r@ == trimmed(s@),
        r@.len() > 0 ==> !white_space(r@.first()) && !white_space(r@.last()),
{
    s.trim()
}

/// `str::to_lowercase`: the lowercase equivalent of the string.
#[verifier::external_body]
pub(crate) fn to_lowercase(s: &str) -> (r: String)
    ensures
        r@ == lowercase_of(s@),
{
    s.to_lowercase()
}

/// `str == str`: two strings are equal where their characters are.
#[verifier::external_body]
pub(crate) fn str_eq(a: &str, b: &str) -> (r: bool)
    ensures
        r == (a@ == b@),
{
    a == b
}

/// The text `a` followed by `b` followed by `c`.
pub fn join3(a: &str, b: &str, c: &str) -> (r: String)
    ensures
        r@ == a@ + b@ + c@,
{
    let mut r = String::from_str(a);
    r.append(b);
    r.append(c);
    r
}

} // verus!

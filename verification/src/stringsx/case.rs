//! Conversion of the first character of a text to lower or upper case.

use vstd::prelude::*;

verus! {

/// The lowercase mapping of `c`, as `char::to_lowercase` of the standard
/// library yields it: one or more characters, `c` itself where it has no
/// lowercase mapping.
pub uninterp spec fn lowercase_of(c: char) -> Seq<char>;

/// The uppercase mapping of `c`, as `char::to_uppercase` of the standard
/// library yields it: one or more characters, `c` itself where it has no
/// uppercase mapping.
pub uninterp spec fn uppercase_of(c: char) -> Seq<char>;

/// What is left of a text once its first character is taken away; the empty
/// text stays empty.
pub open spec fn after_initial(s: Seq<char>) -> Seq<char> {
    if s.len() == 0 {
        s
    } else {
        s.skip(1)
    }
}

/// Calls `char::to_lowercase` and collects what it yields. Trusted: the
/// result is the standard library's lowercase mapping of `c`, which depends
/// on `c` alone.
#[verifier::external_body]
fn lowercase_text(c: char) -> (text: String)
    ensures
        text@ == lowercase_of(c),
{
    c.to_lowercase().to_string()
}

/// Calls `char::to_uppercase` and collects what it yields. Trusted: the
/// result is the standard library's uppercase mapping of `c`, which depends
/// on `c` alone.
#[verifier::external_body]
fn uppercase_text(c: char) -> (text: String)
    ensures
        text@ == uppercase_of(c),
{
    c.to_uppercase().to_string()
}

/// Puts `initial` in front of everything in `s` but its first character.
pub fn with_initial(s: &str, initial: String) -> (joined: String)
    ensures
        joined@ == initial@ + after_initial(s@),
{
    let n: usize = s.unicode_len();
    if n == 0 {
        assert(initial@ + after_initial(s@) =~= initial@);
        initial
    } else {
        let rest: &str = s.substring_char(1, n);
        initial.concat(rest)
    }
}

/// Converts the first character of `s` to lowercase.
pub fn to_lower_initial(s: String) -> (lowered: String)
    ensures
        s@.len() == 0 ==> lowered@ == s@,
        s@.len() > 0 ==> lowered@ == lowercase_of(s@[0]) + s@.skip(1),
{
    if s.as_str().is_empty() {
        return s;
    }
    let first: char = s.as_str().get_char(0);
    with_initial(s.as_str(), lowercase_text(first))
}

/// Converts the first character of `s` to uppercase.
pub fn to_upper_inital(s: String) -> (raised: String)
    ensures
        s@.len() == 0 ==> raised@ == s@,
        s@.len() > 0 ==> raised@ == uppercase_of(s@[0]) + s@.skip(1),
{
    if s.as_str().is_empty() {
        return s;
    }
    let first: char = s.as_str().get_char(0);
    with_initial(s.as_str(), uppercase_text(first))
}

} // verus!

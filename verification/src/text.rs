//! Character-level primitives.  Unicode character classes and case folding
//! come from the standard library; each is named here so that contracts can
//! speak about it exactly.

use vstd::prelude::*;

verus! {

/// Whether a character counts as whitespace, exactly as
/// char::is_whitespace decides it.
pub uninterp spec fn whitespace_char(c: char) -> bool;

/// Relies on char::is_whitespace: a property of the character alone.
pub assume_specification[ char::is_whitespace ](c: char) -> (r: bool)
    ensures
        r == whitespace_char(c),
;

/// Whether a character is alphanumeric, exactly as
/// char::is_alphanumeric decides it.
pub uninterp spec fn alphanumeric_char(c: char) -> bool;

/// Relies on char::is_alphanumeric: a property of the character alone.
pub assume_specification[ char::is_alphanumeric ](c: char) -> (r: bool)
    ensures
        r == alphanumeric_char(c),
;

/// The lowercase folding of a character sequence, exactly as
/// str::to_lowercase produces it.
pub uninterp spec fn lower_of(s: Seq<char>) -> Seq<char>;

/// Relies on str::to_lowercase: the result depends on the characters alone.
#[verifier::external_body]
pub(crate) fn lowercase(s: &str) -> (r: String)
    ensures
        r@ == lower_of(s@),
{
    s.to_lowercase()
}

/// Relies on str's PartialEq: equal exactly when the characters are equal.
#[verifier::external_body]
pub(crate) fn str_eq(a: &str, b: &str) -> (r: bool)
    ensures
        r == (a@ == b@),
{
    a == b
}

/// Relies on String::push: appends exactly one character.
#[verifier::external_body]
pub(crate) fn push_char(s: &mut String, c: char)
    ensures
        final(s)@ == old(s)@.push(c),
{
    s.push(c);
}

} // verus!

//! Character and string operations of std that the casing checks use,
//! with what their documentation promises of them.

use vstd::prelude::*;

verus! {

/// An ASCII letter: `'A'..='Z'` or `'a'..='z'`.
pub open spec fn is_ascii_letter(c: char) -> bool {
    ('A' <= c && c <= 'Z') || ('a' <= c && c <= 'z')
}

/// A lowercase ASCII letter.
pub open spec fn is_ascii_lower(c: char) -> bool {
    'a' <= c && c <= 'z'
}

/// An uppercase ASCII letter.
pub open spec fn is_ascii_upper(c: char) -> bool {
    'A' <= c && c <= 'Z'
}

/// A character of the ASCII range.
pub open spec fn is_ascii_char(c: char) -> bool {
    (c as u32) < 128
}

/// Whether a character outside ASCII has the Unicode `Uppercase` property.
pub uninterp spec fn unicode_uppercase(c: char) -> bool;

/// Whether a character outside ASCII has the Unicode `White_Space` property.
pub uninterp spec fn unicode_white_space(c: char) -> bool;

/// The Unicode `Uppercase` property: within ASCII exactly `'A'..='Z'`.
pub open spec fn has_uppercase_property(c: char) -> bool {
    if is_ascii_char(c) {
        is_ascii_upper(c)
    } else {
        unicode_uppercase(c)
    }
}

/// The Unicode `White_Space` property: within ASCII exactly the space and
/// the control characters U+0009 to U+000D.
pub open spec fn has_white_space_property(c: char) -> bool {
    if is_ascii_char(c) {
        c == ' ' || ('\t' <= c && c <= '\r')
    } else {
        unicode_white_space(c)
    }
}

/// The ASCII uppercase of a character: `'a'..='z'` map to `'A'..='Z'`,
/// every other character is unchanged.
pub open spec fn ascii_uppercase(c: char) -> char {
    if is_ascii_lower(c) {
        ((c as u32) - 32) as char
    } else {
        c
    }
}

/// Whether `c` is an ASCII letter, as `char::is_ascii_alphabetic` answers.
pub fn char_is_ascii_alphabetic(c: char) -> (r: bool)
    ensures
        r == is_ascii_letter(c),
{
    ('A' <= c && c <= 'Z') || ('a' <= c && c <= 'z')
}

/// `char::is_uppercase`: whether the character has the Unicode `Uppercase`
/// property. Within ASCII these are the letters `'A'..='Z'`; outside ASCII the
/// result is named, not stated.
#[verifier::external_body]
pub(crate) fn char_is_uppercase(c: char) -> (r: bool)
    ensures
        r == has_uppercase_property(c),
        !is_ascii_char(c) ==> r == unicode_uppercase(c),
{
    c.is_uppercase()
}

/// `char::is_whitespace`: whether the character has the Unicode `White_Space`
/// property. Within ASCII these are `' '` and U+0009 to U+000D; outside ASCII
/// the result is named, not stated.
#[verifier::external_body]
pub(crate) fn char_is_whitespace(c: char) -> (r: bool)
    ensures
        r == has_white_space_property(c),
        !is_ascii_char(c) ==> r == unicode_white_space(c),
{
    c.is_whitespace()
}

/// The ASCII uppercase of `c`, as `char::to_ascii_uppercase` gives it.
pub fn char_to_ascii_uppercase(c: char) -> (r: char)
    ensures
        r == ascii_uppercase(c),
{
    if 'a' <= c && c <= 'z' {
        let b: u8 = (c as u8) - 32;
        b as char
    } else {
        c
    }
}

/// `String::push`: appends one character at the end.
#[verifier::external_body]
pub(crate) fn string_push(s: &mut String, c: char)
    ensures
        final(s)@ == old(s)@.push(c),
{
    s.push(c)
}

/// `<str as PartialEq>::eq`: two strings are equal when they hold the same
/// characters.
#[verifier::external_body]
pub(crate) fn str_eq(a: &str, b: &str) -> (r: bool)
    ensures
        r == (a@ == b@),
{
    a == b
}

} // verus!

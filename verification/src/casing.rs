//! The casing predicates on names and the conversion from kebab-case to
//! PascalCase.

use vstd::prelude::*;
use crate::chars::{
    ascii_uppercase, char_is_ascii_alphabetic, char_is_uppercase, char_is_whitespace,
    char_to_ascii_uppercase, has_uppercase_property, has_white_space_property, is_ascii_letter,
    is_ascii_lower, is_ascii_upper, string_push,
};

verus! {

/// Some character is neither an ASCII letter nor a hyphen.
pub open spec fn spec_has_symbols(s: Seq<char>) -> bool {
    exists|i: int| 0 <= i < s.len() && !is_ascii_letter(#[trigger] s[i]) && s[i] != '-'
}

/// Whether `str` holds a character that is neither an ASCII letter nor `-`.
pub fn has_symbols(str: &str) -> (r: bool)
    ensures
        r == spec_has_symbols(str@),
{
    broadcast use vstd::string::axiom_spec_iter;
    for c in it: str.chars()
        invariant
            it.seq() == str@,
            forall|j: int| 0 <= j < it.index() ==> is_ascii_letter(#[trigger] str@[j]) || str@[j] == '-',
    {
        if !char_is_ascii_alphabetic(c) && c != '-' {
            return true;
        }
    }
    false
}

/// Some character has the Unicode `Uppercase` property.
pub open spec fn spec_has_upper(s: Seq<char>) -> bool {
    exists|i: int| 0 <= i < s.len() && #[trigger] has_uppercase_property(s[i])
}

/// The first character is a hyphen.
pub open spec fn spec_starts_with_hyphen(s: Seq<char>) -> bool {
    s.len() > 0 && s[0] == '-'
}

/// Two hyphens stand next to each other.
pub open spec fn spec_has_consecutive_hyphens(s: Seq<char>) -> bool {
    exists|i: int| 0 <= i < s.len() - 1 && #[trigger] s[i] == '-' && s[i + 1] == '-'
}

/// Some character is an underscore or has the Unicode `White_Space` property.
pub open spec fn spec_has_underscore_or_whitespace(s: Seq<char>) -> bool {
    exists|i: int|
        0 <= i < s.len() && (#[trigger] s[i] == '_' || has_white_space_property(s[i]))
}

/// The name is kebab-case: no uppercase, nothing but ASCII letters and
/// hyphens, no leading hyphen, no two hyphens in a row, no underscore or
/// whitespace.
pub open spec fn spec_is_kebab_case(s: Seq<char>) -> bool {
    &&& !spec_has_upper(s)
    &&& !spec_has_symbols(s)
    &&& !spec_starts_with_hyphen(s)
    &&& !spec_has_consecutive_hyphens(s)
    &&& !spec_has_underscore_or_whitespace(s)
}

/// The PascalCase form of `s`, read from the left: hyphens are dropped, and
/// the character that follows a hyphen (or begins the name, when
/// `capitalize` holds) is made ASCII uppercase; the others are kept.
pub open spec fn pascal_from(s: Seq<char>, capitalize: bool) -> Seq<char>
    decreases s.len(),
{
    if s.len() == 0 {
        seq![]
    } else if s[0] == '-' {
        pascal_from(s.drop_first(), true)
    } else {
        seq![if capitalize { ascii_uppercase(s[0]) } else { s[0] }] + pascal_from(s.drop_first(), false)
    }
}

/// The PascalCase form of a name: every hyphen is dropped and the first
/// character of the name and every character that follows a hyphen is made
/// ASCII uppercase.
pub open spec fn spec_kebab_to_pascal(s: Seq<char>) -> Seq<char> {
    pascal_from(s, true)
}

/// Whether `str` holds a character with the Unicode `Uppercase` property.
pub fn has_upper(str: &str) -> (r: bool)
    ensures
        r == spec_has_upper(str@),
{
    broadcast use vstd::string::axiom_spec_iter;
    for c in it: str.chars()
        invariant
            it.seq() == str@,
            forall|j: int| 0 <= j < it.index() ==> !has_uppercase_property(#[trigger] str@[j]),
    {
        if char_is_uppercase(c) {
            return true;
        }
    }
    false
}

/// Whether the first character of `str` is a hyphen.
pub fn starts_with_hyphen(str: &str) -> (r: bool)
    ensures
        r == spec_starts_with_hyphen(str@),
{
    broadcast use {vstd::string::axiom_spec_iter, vstd::string::next_postcondition};
    let mut chars = str.chars();
    if let Some(first_char) = chars.next() {
        return first_char == '-';
    }
    false
}

/// Whether `str` holds two hyphens in a row.
pub fn has_consecutive_hyphens(str: &str) -> (r: bool)
    ensures
        r == spec_has_consecutive_hyphens(str@),
{
    broadcast use vstd::string::axiom_spec_iter;
    let mut prev_was_hyphen = false;
    for c in it: str.chars()
        invariant
            it.seq() == str@,
            prev_was_hyphen == (it.index() > 0 && str@[it.index() - 1] == '-'),
            forall|j: int| 0 <= j < it.index() - 1 ==> !(#[trigger] str@[j] == '-' && str@[j + 1] == '-'),
    {
        if c == '-' {
            if prev_was_hyphen {
                assert(str@[it.index() - 1] == '-' && str@[it.index() as int] == '-');
                return true;
            }
            prev_was_hyphen = true;
        } else {
            prev_was_hyphen = false;
        }
    }
    false
}

/// Whether `str` holds an underscore or a character with the Unicode
/// `White_Space` property.
pub fn has_underscore_or_whitespace(str: &str) -> (r: bool)
    ensures
        r == spec_has_underscore_or_whitespace(str@),
{
    broadcast use vstd::string::axiom_spec_iter;
    for c in it: str.chars()
        invariant
            it.seq() == str@,
            forall|j: int|
                0 <= j < it.index() ==> !(#[trigger] str@[j] == '_' || has_white_space_property(str@[j])),
    {
        if c == '_' || char_is_whitespace(c) {
            return true;
        }
    }
    false
}

/// Whether `str` is a kebab-case name.
pub fn is_kebab_case(str: &str) -> (r: bool)
    ensures
        r == spec_is_kebab_case(str@),
{
    return !has_upper(str) && !has_symbols(str) && !starts_with_hyphen(str)
        && !has_consecutive_hyphens(str) && !has_underscore_or_whitespace(str);
}

/// The PascalCase form of a kebab-case name: `"foo-bar"` becomes `"FooBar"`.
pub fn kebab_to_pascal(check_name: &str) -> (result: String)
    ensures
        result@ == spec_kebab_to_pascal(check_name@),
{
    broadcast use vstd::string::axiom_spec_iter;
    let mut result = String::new();
    let mut capitalize_next = true;
    proof {
        assert(check_name@.skip(0) == check_name@);
    }
    for c in it: check_name.chars()
        invariant
            it.seq() == check_name@,
            result@ + pascal_from(check_name@.skip(it.index() as int), capitalize_next)
                == spec_kebab_to_pascal(check_name@),
    {
        let ghost rest = check_name@.skip(it.index() as int);
        assert(rest[0] == c);
        assert(rest.drop_first() == check_name@.skip(it.index() + 1));
        if c == '-' {
            capitalize_next = true;
        } else if capitalize_next {
            string_push(&mut result, char_to_ascii_uppercase(c));
            capitalize_next = false;
        } else {
            string_push(&mut result, c);
        }
    }
    result
}

/// A character of a kebab-case name: a lowercase ASCII letter or a hyphen.
pub open spec fn is_kebab_char(c: char) -> bool {
    is_ascii_lower(c) || c == '-'
}

/// A name is kebab-case exactly when it is made of lowercase ASCII letters
/// and hyphens, does not begin with a hyphen and holds no two hyphens in a
/// row. (The empty name is kebab-case; so is a name that ends in a hyphen.)
pub proof fn lemma_kebab_case_characterization(s: Seq<char>)
    ensures
        spec_is_kebab_case(s) <==> {
            &&& forall|i: int| 0 <= i < s.len() ==> ('a' <= #[trigger] s[i] && s[i] <= 'z') || s[i] == '-'
            &&& !(s.len() > 0 && s[0] == '-')
            &&& forall|i: int| 0 <= i < s.len() - 1 ==> !(#[trigger] s[i] == '-' && s[i + 1] == '-')
        },
{
    if spec_is_kebab_case(s) {
        assert forall|i: int| 0 <= i < s.len() implies is_kebab_char(#[trigger] s[i]) by {
            assert(is_ascii_letter(s[i]) || s[i] == '-');
            assert(!has_uppercase_property(s[i]));
        }
    }
    if forall|i: int| 0 <= i < s.len() ==> is_kebab_char(#[trigger] s[i]) {
        assert(!spec_has_symbols(s));
        assert(!spec_has_upper(s)) by {
            assert forall|i: int| 0 <= i < s.len() implies !#[trigger] has_uppercase_property(s[i]) by {
                assert(is_kebab_char(s[i]));
            }
        }
        assert(!spec_has_underscore_or_whitespace(s)) by {
            assert forall|i: int| 0 <= i < s.len() implies !(#[trigger] s[i] == '_' || has_white_space_property(s[i])) by {
                assert(is_kebab_char(s[i]));
            }
        }
    }
}

/// A name without symbols holds no underscore and no whitespace: the last
/// test of `is_kebab_case` never decides alone.
pub proof fn lemma_no_symbols_no_underscore_or_whitespace(s: Seq<char>)
    ensures
        !spec_has_symbols(s) ==> !spec_has_underscore_or_whitespace(s),
{
    if !spec_has_symbols(s) {
        assert forall|i: int| 0 <= i < s.len() implies !(#[trigger] s[i] == '_' || has_white_space_property(s[i])) by {
            assert(is_ascii_letter(s[i]) || s[i] == '-');
        }
    }
}

/// The ASCII uppercase of a lowercase letter is an uppercase letter.
proof fn lemma_ascii_uppercase_of_lower(c: char)
    requires
        is_ascii_lower(c),
    ensures
        is_ascii_upper(ascii_uppercase(c)),
        ascii_uppercase(c) as u32 == c as u32 - 32,
{
}

/// Every character of the PascalCase form of a string of lowercase letters and
/// hyphens is an ASCII letter.
proof fn lemma_pascal_from_letters(s: Seq<char>, capitalize: bool)
    requires
        forall|i: int| 0 <= i < s.len() ==> is_kebab_char(#[trigger] s[i]),
    ensures
        forall|i: int| 0 <= i < pascal_from(s, capitalize).len()
            ==> is_ascii_letter(#[trigger] pascal_from(s, capitalize)[i]),
    decreases s.len(),
{
    if s.len() > 0 {
        let rest = s.drop_first();
        assert forall|i: int| 0 <= i < rest.len() implies is_kebab_char(#[trigger] rest[i]) by {
            assert(rest[i] == s[i + 1]);
        }
        lemma_pascal_from_letters(rest, true);
        lemma_pascal_from_letters(rest, false);
        if s[0] == '-' {
            assert(pascal_from(s, capitalize) == pascal_from(rest, true));
        } else {
            assert(is_kebab_char(s[0]));
            lemma_ascii_uppercase_of_lower(s[0]);
            let p = pascal_from(s, capitalize);
            let tail = pascal_from(rest, false);
            assert forall|i: int| 0 <= i < p.len() implies is_ascii_letter(#[trigger] p[i]) by {
                if i > 0 {
                    assert(p[i] == tail[i - 1]);
                }
            }
        }
    }
}

/// The fix resolves the report: the PascalCase form of a non-empty kebab-case
/// name holds only ASCII letters and is not kebab-case. (The empty name is
/// kebab-case and its PascalCase form is empty again.)
pub proof fn lemma_pascal_of_kebab_is_clean(s: Seq<char>)
    requires
        s.len() > 0,
        spec_is_kebab_case(s),
    ensures
        !spec_has_symbols(spec_kebab_to_pascal(s)),
        !spec_is_kebab_case(spec_kebab_to_pascal(s)),
{
    lemma_kebab_case_characterization(s);
    lemma_pascal_from_letters(s, true);
    let p = spec_kebab_to_pascal(s);
    assert(s[0] != '-');
    assert(is_kebab_char(s[0]));
    lemma_ascii_uppercase_of_lower(s[0]);
    assert(p[0] == ascii_uppercase(s[0]));
    assert(has_uppercase_property(p[0]));
}

/// The ASCII uppercase of a character other than a hyphen is not a hyphen.
proof fn lemma_ascii_uppercase_not_hyphen(c: char)
    requires
        c != '-',
    ensures
        ascii_uppercase(c) != '-',
{
    if is_ascii_lower(c) {
        lemma_ascii_uppercase_of_lower(c);
    }
}

/// Making a character ASCII uppercase twice is the same as once.
proof fn lemma_ascii_uppercase_idempotent(c: char)
    ensures
        ascii_uppercase(ascii_uppercase(c)) == ascii_uppercase(c),
{
    if is_ascii_lower(c) {
        lemma_ascii_uppercase_of_lower(c);
    }
}

/// The PascalCase form holds no hyphen.
proof fn lemma_pascal_from_no_hyphen(s: Seq<char>, capitalize: bool)
    ensures
        forall|i: int| 0 <= i < pascal_from(s, capitalize).len()
            ==> #[trigger] pascal_from(s, capitalize)[i] != '-',
    decreases s.len(),
{
    if s.len() > 0 {
        let rest = s.drop_first();
        lemma_pascal_from_no_hyphen(rest, true);
        lemma_pascal_from_no_hyphen(rest, false);
        if s[0] == '-' {
            assert(pascal_from(s, capitalize) == pascal_from(rest, true));
        } else {
            lemma_ascii_uppercase_not_hyphen(s[0]);
            let p = pascal_from(s, capitalize);
            let tail = pascal_from(rest, false);
            assert forall|i: int| 0 <= i < p.len() implies #[trigger] p[i] != '-' by {
                if i > 0 {
                    assert(p[i] == tail[i - 1]);
                }
            }
        }
    }
}

/// Reading a string without hyphens, and without capitalizing, keeps it.
proof fn lemma_pascal_from_keeps_hyphen_free(t: Seq<char>)
    requires
        forall|i: int| 0 <= i < t.len() ==> #[trigger] t[i] != '-',
    ensures
        pascal_from(t, false) == t,
    decreases t.len(),
{
    if t.len() > 0 {
        let rest = t.drop_first();
        assert forall|i: int| 0 <= i < rest.len() implies #[trigger] rest[i] != '-' by {
            assert(rest[i] == t[i + 1]);
        }
        lemma_pascal_from_keeps_hyphen_free(rest);
        assert(t[0] != '-');
        assert(seq![t[0]] + rest == t);
    }
}

/// The first character of a capitalized PascalCase form is already ASCII
/// uppercase.
proof fn lemma_pascal_from_first_upper(s: Seq<char>)
    ensures
        pascal_from(s, true).len() > 0 ==> ascii_uppercase(pascal_from(s, true)[0])
            == pascal_from(s, true)[0],
    decreases s.len(),
{
    if s.len() > 0 {
        if s[0] == '-' {
            lemma_pascal_from_first_upper(s.drop_first());
        } else {
            lemma_ascii_uppercase_idempotent(s[0]);
        }
    }
}

/// Converting to PascalCase twice gives the same as converting once.
pub proof fn lemma_kebab_to_pascal_idempotent(s: Seq<char>)
    ensures
        spec_kebab_to_pascal(spec_kebab_to_pascal(s)) == spec_kebab_to_pascal(s),
{
    let p = spec_kebab_to_pascal(s);
    lemma_pascal_from_no_hyphen(s, true);
    lemma_pascal_from_first_upper(s);
    if p.len() > 0 {
        let rest = p.drop_first();
        assert forall|i: int| 0 <= i < rest.len() implies #[trigger] rest[i] != '-' by {
            assert(rest[i] == p[i + 1]);
        }
        lemma_pascal_from_keeps_hyphen_free(rest);
        assert(p[0] != '-');
        assert(seq![p[0]] + rest == p);
    }
}

/// The PascalCase form holds no hyphen.
pub proof fn lemma_kebab_to_pascal_no_hyphen(s: Seq<char>)
    ensures
        forall|i: int| 0 <= i < spec_kebab_to_pascal(s).len()
            ==> #[trigger] spec_kebab_to_pascal(s)[i] != '-',
{
    lemma_pascal_from_no_hyphen(s, true);
}

/// A name has symbols exactly when some character in it is neither an ASCII
/// letter nor a hyphen.
pub proof fn lemma_has_symbols_characterization(s: Seq<char>)
    ensures
        spec_has_symbols(s) <==> exists|i: int|
            0 <= i < s.len() && !(('A' <= #[trigger] s[i] && s[i] <= 'Z') || ('a' <= s[i] && s[i] <= 'z')
                || s[i] == '-'),
{
}

/// A single character is a symbol exactly when it is neither an ASCII letter
/// nor a hyphen.
pub proof fn lemma_has_symbols_single(c: char)
    ensures
        spec_has_symbols(seq![c]) <==> !(('A' <= c && c <= 'Z') || ('a' <= c && c <= 'z') || c == '-'),
{
    assert(seq![c][0] == c);
}

/// A concatenation has symbols exactly when one of its parts has.
pub proof fn lemma_has_symbols_concat(s: Seq<char>, t: Seq<char>)
    ensures
        spec_has_symbols(s + t) == (spec_has_symbols(s) || spec_has_symbols(t)),
{
    let st = s + t;
    if spec_has_symbols(s) {
        let i = choose|i: int| 0 <= i < s.len() && !is_ascii_letter(#[trigger] s[i]) && s[i] != '-';
        assert(st[i] == s[i]);
    }
    if spec_has_symbols(t) {
        let i = choose|i: int| 0 <= i < t.len() && !is_ascii_letter(#[trigger] t[i]) && t[i] != '-';
        assert(st[s.len() + i] == t[i]);
    }
    if spec_has_symbols(st) {
        let i = choose|i: int| 0 <= i < st.len() && !is_ascii_letter(#[trigger] st[i]) && st[i] != '-';
        if i < s.len() {
            assert(st[i] == s[i]);
        } else {
            assert(st[i] == t[i - s.len()]);
        }
    }
}

/// Reading `a`, a hyphen and then `b` gives the reading of `a` followed by
/// the capitalized reading of `b`.
proof fn lemma_pascal_from_hyphen_split(a: Seq<char>, b: Seq<char>, capitalize: bool)
    ensures
        pascal_from(a + seq!['-'] + b, capitalize) == pascal_from(a, capitalize) + pascal_from(b, true),
    decreases a.len(),
{
    let whole = a + seq!['-'] + b;
    if a.len() == 0 {
        assert(whole[0] == '-');
        assert(whole.drop_first() == b);
        assert(pascal_from(a, capitalize) == Seq::<char>::empty());
        assert(Seq::<char>::empty() + pascal_from(b, true) == pascal_from(b, true));
    } else {
        let rest = a.drop_first();
        lemma_pascal_from_hyphen_split(rest, b, true);
        lemma_pascal_from_hyphen_split(rest, b, false);
        assert(whole[0] == a[0]);
        assert(whole.drop_first() == rest + seq!['-'] + b);
        if a[0] != '-' {
            let x = if capitalize { ascii_uppercase(a[0]) } else { a[0] };
            assert(seq![x] + (pascal_from(rest, false) + pascal_from(b, true))
                == (seq![x] + pascal_from(rest, false)) + pascal_from(b, true));
        }
    }
}

/// The PascalCase form of a name with a hyphen in it is the PascalCase form
/// of the part before the hyphen followed by that of the part after it: each
/// hyphen-separated segment is converted on its own, wherever it stands and
/// however long the name is.
pub proof fn lemma_kebab_to_pascal_hyphen_split(a: Seq<char>, b: Seq<char>)
    ensures
        spec_kebab_to_pascal(a + seq!['-'] + b) == spec_kebab_to_pascal(a) + spec_kebab_to_pascal(b),
{
    lemma_pascal_from_hyphen_split(a, b, true);
}

/// A segment without hyphens is converted by making its first character
/// ASCII uppercase and keeping the rest.
pub proof fn lemma_kebab_to_pascal_segment(t: Seq<char>)
    requires
        forall|i: int| 0 <= i < t.len() ==> #[trigger] t[i] != '-',
    ensures
        t.len() == 0 ==> spec_kebab_to_pascal(t) == t,
        t.len() > 0 ==> spec_kebab_to_pascal(t) == seq![ascii_uppercase(t[0])] + t.drop_first(),
{
    if t.len() > 0 {
        let rest = t.drop_first();
        assert forall|i: int| 0 <= i < rest.len() implies #[trigger] rest[i] != '-' by {
            assert(rest[i] == t[i + 1]);
        }
        lemma_pascal_from_keeps_hyphen_free(rest);
        assert(t[0] != '-');
    }
}

} // verus!

//! Shape checks for the credentials of a registration request.

use vstd::prelude::*;
use vstd::utf8::{char_is_scalar, encode_utf8};

verus! {

broadcast use vstd::string::group_string_axioms;

/// An ASCII letter or digit.
pub open spec fn is_ascii_alphanumeric(c: char) -> bool {
    ||| 'a' <= c <= 'z'
    ||| 'A' <= c <= 'Z'
    ||| '0' <= c <= '9'
}

/// A user name is acceptable when it is non-empty and made of ASCII letters
/// and digits only.
pub open spec fn username_ok(s: Seq<char>) -> bool {
    &&& s.len() > 0
    &&& forall|i: int| 0 <= i < s.len() ==> is_ascii_alphanumeric(#[trigger] s[i])
}

fn ascii_alphanumeric(c: char) -> (b: bool)
    ensures
        b == is_ascii_alphanumeric(c),
{
    ('a' <= c && c <= 'z') || ('A' <= c && c <= 'Z') || ('0' <= c && c <= '9')
}

/// Whether `username` is non-empty and made of ASCII letters and digits
/// only.
pub fn validate_username(username: &str) -> (ok: bool)
    ensures
        ok == username_ok(username@),
{
    let mut clean = true;
    for c in it: username.chars()
        invariant
            it.seq() == username@,
            clean == forall|i: int| 0 <= i < it.index() ==> is_ascii_alphanumeric(#[trigger] username@[i]),
    {
        if !ascii_alphanumeric(c) {
            clean = false;
        }
    }
    clean && !username.is_empty()
}

/// A character with the Unicode property `White_Space`: the controls
/// U+0009 to U+000D, the space, U+0085, U+00A0, U+1680, U+2000 to U+200A,
/// U+2028, U+2029, U+202F, U+205F and U+3000.
pub open spec fn is_whitespace(c: char) -> bool {
    let v = c as u32;
    ||| 0x0009 <= v <= 0x000d
    ||| v == 0x0020
    ||| v == 0x0085
    ||| v == 0x00a0
    ||| v == 0x1680
    ||| 0x2000 <= v <= 0x200a
    ||| v == 0x2028
    ||| v == 0x2029
    ||| v == 0x202f
    ||| v == 0x205f
    ||| v == 0x3000
}

/// Bytes that the UTF-8 encoding of `c` takes.
pub open spec fn utf8_width(c: char) -> nat {
    let v = c as u32;
    if v < 0x80 {
        1
    } else if v < 0x800 {
        2
    } else if v < 0x1_0000 {
        3
    } else {
        4
    }
}

/// Length of a text in bytes, in its UTF-8 encoding.
pub open spec fn utf8_len(s: Seq<char>) -> nat
    decreases s.len(),
{
    if s.len() == 0 {
        0
    } else {
        utf8_width(s[0]) + utf8_len(s.drop_first())
    }
}

/// `utf8_len` is the length of the encoded text.
pub proof fn lemma_utf8_len_is_encoded_len(s: Seq<char>)
    ensures
        utf8_len(s) == encode_utf8(s).len(),
    decreases s.len(),
{
    if s.len() > 0 {
        char_is_scalar(s[0]);
        lemma_utf8_len_is_encoded_len(s.drop_first());
    }
}

/// A text takes at least one byte and at most four for each character.
pub proof fn lemma_utf8_len_bounds(s: Seq<char>)
    ensures
        s.len() <= utf8_len(s) <= 4 * s.len(),
    decreases s.len(),
{
    if s.len() > 0 {
        lemma_utf8_len_bounds(s.drop_first());
    }
}

/// A password is acceptable when it is at least three bytes long and holds
/// no whitespace character.
pub open spec fn password_ok(s: Seq<char>) -> bool {
    &&& utf8_len(s) >= 3
    &&& forall|i: int| 0 <= i < s.len() ==> !is_whitespace(#[trigger] s[i])
}

/// Whether `c` is a whitespace character.
pub fn whitespace(c: char) -> (b: bool)
    ensures
        b == is_whitespace(c),
{
    let v: u32 = c as u32;
    (0x0009 <= v && v <= 0x000d) || v == 0x0020 || v == 0x0085 || v == 0x00a0 || v == 0x1680 || (
    0x2000 <= v && v <= 0x200a) || v == 0x2028 || v == 0x2029 || v == 0x202f || v == 0x205f || v
        == 0x3000
}

/// Whether `password` is at least three bytes long and free of whitespace.
pub fn validate_password(password: &str) -> (ok: bool)
    ensures
        ok == password_ok(password@),
{
    let mut clean = true;
    for c in it: password.chars()
        invariant
            it.seq() == password@,
            clean == forall|i: int| 0 <= i < it.index() ==> !is_whitespace(#[trigger] password@[i]),
    {
        if whitespace(c) {
            clean = false;
        }
    }
    proof {
        lemma_utf8_len_is_encoded_len(password@);
    }
    password.as_bytes().len() >= 3 && clean
}

/// A user name that holds a character other than an ASCII letter or digit
/// is refused; a non-empty user name made of such characters only is
/// accepted.
pub proof fn lemma_username_rule(s: Seq<char>)
    ensures
        (exists|i: int| 0 <= i < s.len() && !is_ascii_alphanumeric(s[i])) ==> !username_ok(s),
        s.len() > 0 && (forall|i: int| 0 <= i < s.len() ==> is_ascii_alphanumeric(s[i]))
            ==> username_ok(s),
{
}

/// A password shorter than three bytes, or with a whitespace character in
/// it, is refused; one of three characters or more, none of them
/// whitespace, is accepted.
pub proof fn lemma_password_rule(s: Seq<char>)
    ensures
        utf8_len(s) < 3 ==> !password_ok(s),
        (exists|i: int| 0 <= i < s.len() && is_whitespace(s[i])) ==> !password_ok(s),
        s.len() >= 3 && (forall|i: int| 0 <= i < s.len() ==> !is_whitespace(s[i]))
            ==> password_ok(s),
{
    lemma_utf8_len_bounds(s);
}

} // verus!

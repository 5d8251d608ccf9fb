//! Text helpers: header names in environment style, and raw bytes as text.

use vstd::prelude::*;
use vstd::utf8::{decode_utf8, valid_utf8};

verus! {

/// An ASCII lower-case letter becomes its upper-case form; every other character stays.
pub open spec fn ascii_upper(c: char) -> char {
    if 'a' <= c <= 'z' {
        ((c as u8) - 32) as char
    } else {
        c
    }
}

/// The character a header-name character turns into: `-` becomes `_`, ASCII letters are
/// upper-cased, anything else is kept.
pub open spec fn env_char(c: char) -> char {
    if c == '-' {
        '_'
    } else {
        ascii_upper(c)
    }
}

/// The prefix of every environment-style header key.
pub open spec fn env_prefix() -> Seq<char> {
    seq!['H', 'T', 'T', 'P', '_']
}

/// The environment-style key of a header name.
pub open spec fn env_key(name: Seq<char>) -> Seq<char> {
    env_prefix() + name.map_values(|c: char| env_char(c))
}

/// Appends one character to a string, as `String::push` of the standard library does.
#[verifier::external_body]
pub(crate) fn push_char(s: &mut String, c: char)
    ensures
        final(s)@ == old(s)@.push(c),
{
    s.push(c)
}

/// The text that `String::from_utf8_lossy` of the standard library makes of these bytes.
pub uninterp spec fn lossy_text(bytes: Seq<u8>) -> Seq<char>;

/// Decodes bytes as UTF-8 text with `String::from_utf8_lossy`, which never fails: it puts the
/// replacement character U+FFFD in place of what is not valid UTF-8. Bytes that are valid
/// UTF-8 come out as the text they encode.
#[verifier::external_body]
pub(crate) fn decode_lossy(bytes: &[u8]) -> (text: String)
    ensures
        text@ == lossy_text(bytes@),
        valid_utf8(bytes@) ==> text@ == decode_utf8(bytes@),
{
    String::from_utf8_lossy(bytes).into_owned()
}

/// Upper-cases one ASCII letter.
pub fn to_ascii_upper(c: char) -> (r: char)
    ensures
        r == ascii_upper(c),
{
    if 'a' <= c && c <= 'z' {
        ((c as u8) - 32) as char
    } else {
        c
    }
}

/// Maps one character of a header name to its environment-style form.
pub fn to_env_char(c: char) -> (r: char)
    ensures
        r == env_char(c),
{
    if c == '-' {
        '_'
    } else {
        to_ascii_upper(c)
    }
}

/// Builds the environment-style key of a header name: `HTTP_`, then the name with every `-`
/// replaced by `_` and every ASCII letter in upper case.
pub fn cgi_key(name: &str) -> (key: String)
    ensures
        key@ == env_key(name@),
{
    let mut key = String::from_str("HTTP_");
    proof {
        reveal_strlit("HTTP_");
        assert(key@ =~= env_prefix());
    }
    for c in it: name.chars()
        invariant
            it.seq() == name@,
            key@ == env_prefix() + name@.take(it.index()).map_values(|c: char| env_char(c)),
    {
        let mapped = to_env_char(c);
        push_char(&mut key, mapped);
        proof {
            let done = name@.take(it.index());
            let next = name@.take(it.index() + 1);
            assert(next == done.push(c));
            assert(next.map_values(|c: char| env_char(c)) == done.map_values(
                |c: char| env_char(c),
            ).push(mapped));
        }
    }
    proof {
        assert(name@.take(name@.len() as int) == name@);
    }
    key
}

} // verus!

//! JSON text for strings and string lists, as `serde_json` writes it.

use vstd::prelude::*;
use crate::text::{hex_digit_char, join, string_views};

verus! {

/// How `serde_json` writes one character inside a JSON string: quote and
/// backslash are escaped, the named control characters use their short
/// escapes, other control characters use `\u00XX` with lower-case hex, and
/// everything else is written as is.
pub open spec fn json_escape_char(c: char) -> Seq<char> {
    let v = c as u32;
    if c == '"' {
        seq!['\\', '"']
    } else if c == '\\' {
        seq!['\\', '\\']
    } else if v == 8 {
        seq!['\\', 'b']
    } else if v == 9 {
        seq!['\\', 't']
    } else if v == 10 {
        seq!['\\', 'n']
    } else if v == 12 {
        seq!['\\', 'f']
    } else if v == 13 {
        seq!['\\', 'r']
    } else if v < 0x20 {
        seq![
            '\\',
            'u',
            '0',
            '0',
            hex_digit_char((v / 16) as nat),
            hex_digit_char((v % 16) as nat),
        ]
    } else {
        seq![c]
    }
}

/// The escaped body of a JSON string.
pub open spec fn json_escape(s: Seq<char>) -> Seq<char>
    decreases s.len(),
{
    if s.len() == 0 {
        seq![]
    } else {
        json_escape(s.drop_last()) + json_escape_char(s.last())
    }
}

/// A JSON string literal for `s`.
pub open spec fn json_string_literal(s: Seq<char>) -> Seq<char> {
    seq!['"'] + json_escape(s) + seq!['"']
}

/// A compact JSON array of string literals.
pub open spec fn json_string_array(items: Seq<Seq<char>>) -> Seq<char> {
    seq!['['] + join(items.map_values(|s: Seq<char>| json_string_literal(s)), seq![',']) + seq![
        ']',
    ]
}

/// A JSON string literal for `s` (`serde_json::to_string` on a `str`).
///
/// The contract states the escaping that `serde_json`'s compact serializer
/// applies; serializing a `str` into memory does not fail.
#[verifier::external_body]
pub(crate) fn json_quote(s: &str) -> (r: String)
    ensures
        r@ == json_string_literal(s@),
{
    match serde_json::to_string(s) {
        Ok(t) => t,
        Err(_) => String::new(),
    }
}

/// A compact JSON array of strings (`serde_json::to_string` on a slice of
/// `String`): `[`, the string literals separated by `,`, then `]`.
#[verifier::external_body]
pub(crate) fn json_array_of_strings(items: &[String]) -> (r: String)
    ensures
        r@ == json_string_array(string_views(items@)),
{
    match serde_json::to_string(items) {
        Ok(t) => t,
        Err(_) => String::new(),
    }
}

} // verus!

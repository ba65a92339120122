//! JSON string literals, as serde_json writes them.
use vstd::prelude::*;

verus! {

/// A lower-case hexadecimal digit.
pub open spec fn hex_digit(n: nat) -> char {
    if n < 10 { (48 + n) as char } else { (87 + n) as char }
}

/// How serde_json writes one character inside a string literal: quote, backslash and the
/// control characters are escaped (the five with a short form by it, the others as
/// `\u00XX`); everything else stands as it is.
pub open spec fn json_escape_char(c: char) -> Seq<char> {
    if c == '"' {
        seq!['\\', '"']
    } else if c == '\\' {
        seq!['\\', '\\']
    } else if c == '\u{8}' {
        seq!['\\', 'b']
    } else if c == '\t' {
        seq!['\\', 't']
    } else if c == '\n' {
        seq!['\\', 'n']
    } else if c == '\u{c}' {
        seq!['\\', 'f']
    } else if c == '\r' {
        seq!['\\', 'r']
    } else if (c as u32) < 32 {
        seq!['\\', 'u', '0', '0', hex_digit((c as u32 / 16) as nat), hex_digit((c as u32 % 16) as nat)]
    } else {
        seq![c]
    }
}

/// Every character of `s`, escaped.
pub open spec fn json_escape(s: Seq<char>) -> Seq<char>
    decreases s.len(),
{
    if s.len() == 0 {
        Seq::empty()
    } else {
        json_escape(s.drop_last()) + json_escape_char(s.last())
    }
}

/// `s` as a JSON string literal.
pub open spec fn json_quoted(s: Seq<char>) -> Seq<char> {
    seq!['"'] + json_escape(s) + seq!['"']
}

/// `serde_json::to_string` on a string: the claim is that it writes the string between
/// double quotes, each character escaped as its `ESCAPE` table says; serialising a `str`
/// does not fail.
#[verifier::external_body]
pub(crate) fn json_quote(s: &str) -> (r: String)
    ensures
        r@ == json_quoted(s@),
{
    serde_json::to_string(s).unwrap_or_default()
}

/// What `serde_json` finds under `key` in the JSON object written in `text`, as a string.
pub uninterp spec fn json_str_at(text: Seq<char>, key: Seq<char>) -> Option<Seq<char>>;

/// What `serde_json` finds under `key` in the JSON object written in `text`, as an `i64`.
pub uninterp spec fn json_int_at(text: Seq<char>, key: Seq<char>) -> Option<i64>;

/// What `serde_json` finds under `key` in the JSON object written in `text`, as a `bool`.
pub uninterp spec fn json_bool_at(text: Seq<char>, key: Seq<char>) -> Option<bool>;

/// `serde_json::from_str` into a `Value`, then `get(key)` and `as_str`: the string stored
/// under `key`, or `None` where the text is no JSON, holds no such key, or holds another
/// kind of value there. Nothing is claimed of the parse beyond its being a function of the text.
#[verifier::external_body]
pub(crate) fn json_str_field(text: &str, key: &str) -> (r: Option<String>)
    ensures
        crate::config::opt_view(r) == json_str_at(text@, key@),
{
    let v: serde_json::Value = serde_json::from_str(text).ok()?;
    v.get(key)?.as_str().map(String::from)
}

/// `serde_json::from_str` into a `Value`, then `get(key)` and `as_i64`: the integer stored
/// under `key` where it fits an `i64`, else `None`.
#[verifier::external_body]
pub(crate) fn json_int_field(text: &str, key: &str) -> (r: Option<i64>)
    ensures
        r == json_int_at(text@, key@),
{
    let v: serde_json::Value = serde_json::from_str(text).ok()?;
    v.get(key)?.as_i64()
}

/// `serde_json::from_str` into a `Value`, then `get(key)` and `as_bool`: the boolean stored
/// under `key`, else `None`.
#[verifier::external_body]
pub(crate) fn json_bool_field(text: &str, key: &str) -> (r: Option<bool>)
    ensures
        r == json_bool_at(text@, key@),
{
    let v: serde_json::Value = serde_json::from_str(text).ok()?;
    v.get(key)?.as_bool()
}

} // verus!

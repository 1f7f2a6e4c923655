//! JSON texts of strings and flags, as serde_json writes them.
use crate::text::hex;
use vstd::prelude::*;

verus! {

/// How serde_json writes the character `c` inside a JSON string: quote and
/// backslash escaped, the usual control characters by their short escapes,
/// the other control characters as `\u00XX`, every other character as is.
pub open spec fn escaped_char(c: char) -> Seq<char> {
    if c == '"' {
        seq!['\\', '"']
    } else if c == '\\' {
        seq!['\\', '\\']
    } else if c == '\u{8}' {
        seq!['\\', 'b']
    } else if c == '\t' {
        seq!['\\', 't']
    } else if c == '\n' {
        seq!['\\', 'n']
    } else if c == '\u{c}' {
        seq!['\\', 'f']
    } else if c == '\r' {
        seq!['\\', 'r']
    } else if (c as u32) < 0x20 {
        seq!['\\', 'u', '0', '0'] + hex(c as nat, 2, false)
    } else {
        seq![c]
    }
}

/// The escaped contents of a JSON string holding `s`.
pub open spec fn escaped(s: Seq<char>) -> Seq<char>
    decreases s.len(),
{
    if s.len() == 0 {
        seq![]
    } else {
        escaped(s.drop_last()) + escaped_char(s.last())
    }
}

/// The JSON text of the string `s`.
pub open spec fn json_string(s: Seq<char>) -> Seq<char> {
    seq!['"'] + escaped(s) + seq!['"']
}

/// The JSON text of the object holding the one flag `key`.
pub open spec fn json_flag(key: Seq<char>, value: bool) -> Seq<char> {
    seq!['{'] + json_string(key) + seq![':'] + (if value {
        "true"@
    } else {
        "false"@
    }) + seq!['}']
}

/// `serde_json::Value::String(..)` written by its `Display`. Claimed: the
/// compact JSON text of the string, with serde_json's escapes.
#[verifier::external_body]
pub(crate) fn string_text(s: &str) -> (text: String)
    ensures
        text@ == json_string(s@),
{
    serde_json::Value::String(s.to_string()).to_string()
}

/// `serde_json::Value::Object(..)` holding the one entry `key: value`,
/// written by its `Display`. Claimed: `{`, the key as a JSON string, `:`,
/// `true` or `false`, `}`.
#[verifier::external_body]
pub(crate) fn flag_text(key: &str, value: bool) -> (text: String)
    ensures
        text@ == json_flag(key@, value),
{
    let mut map = serde_json::Map::new();
    map.insert(key.to_string(), serde_json::Value::Bool(value));
    serde_json::Value::Object(map).to_string()
}

} // verus!

//! What the crate asks of `serde_json`: each function here makes one call into
//! it and converts the result. What a parse gives is named, not re-stated;
//! how a string is quoted takes a few lines, which are stated.
use vstd::prelude::*;

use crate::text::opt_chars;

verus! {

/// Whether `serde_json::from_str::<serde_json::Value>` accepts the text.
pub uninterp spec fn json_accepts(text: Seq<char>) -> bool;

/// `serde_json::to_string_pretty` of the value that the text parses to.
pub uninterp spec fn json_pretty_of(text: Seq<char>) -> Seq<char>;

/// `serde_json::to_string` (compact) of the value that the text parses to.
pub uninterp spec fn json_compact_of(text: Seq<char>) -> Seq<char>;

/// When the text parses to a JSON array: its elements, each written back
/// compactly with `to_string`; otherwise nothing.
pub uninterp spec fn json_array_items_of(text: Seq<char>) -> Option<Seq<Seq<char>>>;

/// `value[key].as_str()` of the value that the text parses to.
pub uninterp spec fn json_str_field_of(text: Seq<char>, key: Seq<char>) -> Option<Seq<char>>;

/// `value[key].as_bool()` of the value that the text parses to.
pub uninterp spec fn json_bool_field_of(text: Seq<char>, key: Seq<char>) -> Option<bool>;

/// The lowercase hexadecimal digit of `d` (below 16).
pub open spec fn lower_hex_digit(d: u32) -> char {
    if d < 10 {
        (48 + d) as char
    } else {
        (87 + d) as char
    }
}

/// How `serde_json` writes one character inside a string: `"` and `\` and
/// the control characters with a short escape get it (`\b \t \n \f \r`),
/// the other characters below U+0020 become `\u00` and two lowercase hex
/// digits, and every other character is written as it is.
pub open spec fn json_escaped_char(c: char) -> Seq<char> {
    if c == '"' {
        seq!['\\', '"']
    } else if c == '\\' {
        seq!['\\', '\\']
    } else if c == '\u{8}' {
        seq!['\\', 'b']
    } else if c == '\t' {
        seq!['\\', 't']
    } else if c == '\n' {
        seq!['\\', 'n']
    } else if c == '\u{c}' {
        seq!['\\', 'f']
    } else if c == '\r' {
        seq!['\\', 'r']
    } else if (c as u32) < 0x20 {
        seq!['\\', 'u', '0', '0', lower_hex_digit((c as u32) / 16), lower_hex_digit((c as u32) % 16)]
    } else {
        seq![c]
    }
}

/// The characters of `s`, each escaped as `serde_json` writes it.
pub open spec fn json_escaped(s: Seq<char>) -> Seq<char>
    decreases s.len(),
{
    if s.len() == 0 {
        Seq::<char>::empty()
    } else {
        json_escaped(s.drop_last()) + json_escaped_char(s.last())
    }
}

/// `serde_json::to_string` of a string: the string in double quotes, each
/// character escaped as JSON asks.
pub open spec fn json_quoted_of(s: Seq<char>) -> Seq<char> {
    seq!['"'] + json_escaped(s) + seq!['"']
}

/// The sequence of views of a vector of strings.
pub open spec fn strings_view(v: Seq<String>) -> Seq<Seq<char>> {
    v.map_values(|s: String| s@)
}

/// Calls `serde_json::from_str::<serde_json::Value>` and reports whether it succeeded.
#[verifier::external_body]
pub fn is_json(text: &str) -> (b: bool)
    ensures
        b == json_accepts(text@),
{
    serde_json::from_str::<serde_json::Value>(text).is_ok()
}

/// The message of the error that `serde_json::from_str::<serde_json::Value>`
/// returns for the text (its `Display`: what was wrong, and at which line and
/// column).
pub uninterp spec fn json_error_of(text: Seq<char>) -> Seq<char>;

/// Calls `serde_json::from_str::<serde_json::Value>`; on failure, the
/// error's message.
#[verifier::external_body]
pub fn json_error(text: &str) -> (r: Option<String>)
    ensures
        r is None == json_accepts(text@),
        r matches Some(e) ==> e@ == json_error_of(text@),
{
    serde_json::from_str::<serde_json::Value>(text).err().map(|e| e.to_string())
}

/// Parses the text with `serde_json::from_str` and writes the value back with
/// `serde_json::to_string_pretty`, which cannot fail on a parsed value.
#[verifier::external_body]
pub fn json_pretty(text: &str) -> (r: Option<String>)
    ensures
        r is Some == json_accepts(text@),
        r matches Some(o) ==> o@ == json_pretty_of(text@),
{
    let v = serde_json::from_str::<serde_json::Value>(text).ok()?;
    serde_json::to_string_pretty(&v).ok()
}

/// Parses the text with `serde_json::from_str` and writes the value back
/// compactly with `serde_json::to_string`, which cannot fail on a parsed value.
#[verifier::external_body]
pub fn json_compact(text: &str) -> (r: Option<String>)
    ensures
        r is Some == json_accepts(text@),
        r matches Some(o) ==> o@ == json_compact_of(text@),
{
    let v = serde_json::from_str::<serde_json::Value>(text).ok()?;
    serde_json::to_string(&v).ok()
}

/// Parses the text with `serde_json::from_str`; for an array, gives its
/// elements written back with `to_string`.
#[verifier::external_body]
pub fn json_array_items(text: &str) -> (r: Option<Vec<String>>)
    ensures
        r matches Some(v) ==> json_accepts(text@) && json_array_items_of(text@) == Some(
            strings_view(v@),
        ),
        r is None ==> json_array_items_of(text@) is None,
{
    let items = match serde_json::from_str::<serde_json::Value>(text) {
        Ok(serde_json::Value::Array(items)) => items,
        _ => return None,
    };
    let mut out = Vec::with_capacity(items.len());
    for v in items {
        out.push(v.to_string());
    }
    Some(out)
}

/// Parses the text with `serde_json::from_str` and reads `value[key].as_str()`.
#[verifier::external_body]
pub fn json_str_field(text: &str, key: &str) -> (r: Option<String>)
    ensures
        opt_chars(r) == json_str_field_of(text@, key@),
        r is Some ==> json_accepts(text@),
{
    let v = serde_json::from_str::<serde_json::Value>(text).ok()?;
    v[key].as_str().map(String::from)
}

/// Parses the text with `serde_json::from_str` and reads `value[key].as_bool()`.
#[verifier::external_body]
pub fn json_bool_field(text: &str, key: &str) -> (r: Option<bool>)
    ensures
        r == json_bool_field_of(text@, key@),
        r is Some ==> json_accepts(text@),
{
    let v = serde_json::from_str::<serde_json::Value>(text).ok()?;
    v[key].as_bool()
}

/// `value[key].to_string()` (compact JSON) of the value that the text parses
/// to; nothing when the text is not JSON.
pub uninterp spec fn json_field_text_of(text: Seq<char>, key: Seq<char>) -> Option<Seq<char>>;

/// Parses the text with `serde_json::from_str` and writes `value[key]` back
/// with `to_string` (a missing key reads as `null`).
#[verifier::external_body]
pub fn json_field_text(text: &str, key: &str) -> (r: Option<String>)
    ensures
        opt_chars(r) == json_field_text_of(text@, key@),
{
    let v = serde_json::from_str::<serde_json::Value>(text).ok()?;
    Some(v[key].to_string())
}

/// Calls `serde_json::to_string` on a string slice, which cannot fail; it
/// quotes and escapes the string (`format_escaped_str` and its `ESCAPE`
/// table in `serde_json`'s `ser.rs`).
#[verifier::external_body]
pub fn json_quoted(s: &str) -> (r: String)
    ensures
        r@ == json_quoted_of(s@),
{
    serde_json::to_string(s).unwrap_or_default()
}

} // verus!

use vstd::prelude::*;

verus! {

/// A lower-case hexadecimal digit.
pub open spec fn hex_digit(n: int) -> char {
    seq!['0', '1', '2', '3', '4', '5', '6', '7', '8', '9', 'a', 'b', 'c', 'd', 'e', 'f'][n]
}

/// How one character is written inside a JSON string literal: the quote and
/// the backslash are escaped, the control characters with a short escape
/// where one exists and as `\u00xx` otherwise; every other character stands
/// for itself.
pub open spec fn escape_char(c: char) -> Seq<char> {
    if c == '"' {
        seq!['\\', '"']
    } else if c == '\\' {
        seq!['\\', '\\']
    } else if c == '\u{8}' {
        seq!['\\', 'b']
    } else if c == '\t' {
        seq!['\\', 't']
    } else if c == '\n' {
        seq!['\\', 'n']
    } else if c == '\u{c}' {
        seq!['\\', 'f']
    } else if c == '\r' {
        seq!['\\', 'r']
    } else if (c as u32) < 0x20 {
        seq!['\\', 'u', '0', '0', hex_digit((c as int) / 16), hex_digit((c as int) % 16)]
    } else {
        seq![c]
    }
}

/// The characters of `s`, each escaped.
pub open spec fn escape_text(s: Seq<char>) -> Seq<char>
    decreases s.len(),
{
    if s.len() == 0 {
        seq![]
    } else {
        escape_text(s.drop_last()) + escape_char(s.last())
    }
}

/// The JSON text of a string value, as serde_json writes it: the escaped
/// characters between two quotes. Writing a string never fails.
pub open spec fn json_string_text(s: Seq<char>) -> Option<Seq<char>> {
    Some(seq!['"'] + escape_text(s) + seq!['"'])
}

/// Relies on `serde_json::to_string` applied to a `str`: the escaped
/// characters between quotes, per serde_json's escape table. It is never an
/// error, as a string is written into an in-memory buffer.
#[verifier::external_body]
pub(crate) fn json_string(s: &str) -> (r: Option<String>)
    ensures
        r.deep_view() == json_string_text(s@),
        r.is_some(),
{
    serde_json::to_string(s).ok()
}

/// The string stored under `key` in the JSON object that `bytes` hold:
/// `None` when the bytes are not one JSON object, `Some(None)` when the
/// object holds no string under that key.
pub uninterp spec fn json_object_text_field(bytes: Seq<u8>, key: Seq<char>) -> Option<
    Option<Seq<char>>,
>;

/// Relies on `serde_json::from_slice` into a `serde_json::Value` and on the
/// object map's `get`: the string under `key` of the object that the bytes
/// hold. The result depends on the bytes and the key alone.
#[verifier::external_body]
pub(crate) fn object_text_field(bytes: &[u8], key: &str) -> (r: Option<Option<String>>)
    ensures
        r.deep_view() == json_object_text_field(bytes@, key@),
{
    match serde_json::from_slice::<serde_json::Value>(bytes) {
        Ok(serde_json::Value::Object(fields)) => match fields.get(key) {
            Some(serde_json::Value::String(text)) => Some(Some(text.clone())),
            _ => Some(None),
        },
        _ => None,
    }
}

} // verus!

//! JSON text: string literals, and the members of an object, taken from
//! serde_json.
use vstd::prelude::*;

verus! {

/// The lower-case hexadecimal digit of `d`.
pub open spec fn hex_digit(d: u32) -> char {
    if d == 0 { '0' } else if d == 1 { '1' } else if d == 2 { '2' } else if d == 3 { '3' }
    else if d == 4 { '4' } else if d == 5 { '5' } else if d == 6 { '6' } else if d == 7 { '7' }
    else if d == 8 { '8' } else if d == 9 { '9' } else if d == 10 { 'a' } else if d == 11 { 'b' }
    else if d == 12 { 'c' } else if d == 13 { 'd' } else if d == 14 { 'e' } else { 'f' }
}

/// How one character stands inside a JSON string literal: a quote, a
/// backslash and the control characters are escaped, the rest stands as is.
pub open spec fn json_escape(c: char) -> Seq<char> {
    if c == '"' {
        seq!['\\', '"']
    } else if c == '\\' {
        seq!['\\', '\\']
    } else if c == '\u{8}' {
        seq!['\\', 'b']
    } else if c == '\u{c}' {
        seq!['\\', 'f']
    } else if c == '\n' {
        seq!['\\', 'n']
    } else if c == '\r' {
        seq!['\\', 'r']
    } else if c == '\t' {
        seq!['\\', 't']
    } else if (c as u32) < 32 {
        seq!['\\', 'u', '0', '0', hex_digit((c as u32) / 16), hex_digit((c as u32) % 16)]
    } else {
        seq![c]
    }
}

/// The characters of `s`, each escaped for a JSON string literal.
pub open spec fn json_escaped(s: Seq<char>) -> Seq<char>
    decreases s.len(),
{
    if s.len() == 0 {
        Seq::empty()
    } else {
        json_escaped(s.drop_last()) + json_escape(s.last())
    }
}

/// The JSON string literal that stands for `s`.
pub open spec fn json_quoted(s: Seq<char>) -> Seq<char> {
    seq!['"'] + json_escaped(s) + seq!['"']
}

/// Relies on the `Display` of `serde_json::Value` for a string value: the
/// compact JSON text of that string, which escapes `"`, `\` and the control
/// characters below U+0020 (`\b`, `\f`, `\n`, `\r`, `\t`, else `\u00xx` in
/// lower-case hex).
#[verifier::external_body]
pub(crate) fn json_quote(s: &str) -> (r: String)
    ensures
        r@ == json_quoted(s@),
{
    serde_json::Value::String(s.to_string()).to_string()
}

/// The members of the JSON object that `text` holds, in key order, each key
/// with the text of its value where that value is a string; `None` where
/// `text` is not JSON, or is JSON of another kind than an object.
pub uninterp spec fn json_object_texts(text: Seq<char>) -> Option<Seq<(Seq<char>, Option<Seq<char>>)>>;

/// Relies on `serde_json::from_str` into a `serde_json::Value`: where the
/// text is a JSON object, its members (a `BTreeMap`, so no two share a key),
/// each key with the text of its value where that value is a string.
#[verifier::external_body]
pub(crate) fn object_member_texts(text: &str) -> (r: Option<Vec<(String, Option<String>)>>)
    ensures
        r.deep_view() == json_object_texts(text@),
        r matches Some(m) ==> forall|i: int, j: int|
            0 <= i < j < m@.len() ==> m@[i].0@ != m@[j].0@,
{
    match serde_json::from_str(text) {
        Ok(serde_json::Value::Object(m)) => Some(m.into_iter().map(|(k, v)| match v {
            serde_json::Value::String(s) => (k, Some(s)),
            _ => (k, None),
        }).collect()),
        _ => None,
    }
}

} // verus!

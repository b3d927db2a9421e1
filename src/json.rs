//! The boundary with serde_json: its value type, and the few calls that read
//! or write JSON text.

use vstd::prelude::*;

verus! {

#[verifier::external_type_specification]
#[verifier::external_body]
pub struct ExValue(serde_json::Value);

#[verifier::external_type_specification]
#[verifier::external_body]
pub struct ExError(serde_json::Error);

/// What one member of a JSON object holds, as far as the protocol reads it.
#[derive(Debug)]
pub enum Field {
    /// The object has no member of that name (or the value is no object).
    Absent,
    Null,
    Bool(bool),
    Text(String),
    /// An array; each item is its string, or `None` where it is no string.
    List(Vec<Option<String>>),
    /// A number or an object.
    Other,
}

/// The value that a JSON text parses to, `None` where it is no JSON.
pub uninterp spec fn parsed(text: Seq<char>) -> Option<serde_json::Value>;

/// The member of a JSON object under a key; `None` where there is none or
/// the value is no object.
pub uninterp spec fn member_of(v: serde_json::Value, key: Seq<char>) -> Option<serde_json::Value>;

/// The kind and plain contents of a JSON value.
pub uninterp spec fn kind(v: serde_json::Value) -> Field;

/// The compact JSON text of a value.
pub uninterp spec fn json_text(v: serde_json::Value) -> Seq<char>;

/// The text with leading and trailing whitespace removed.
pub uninterp spec fn trimmed(s: Seq<char>) -> Seq<char>;

/// What a member of an object holds, `Absent` where there is none.
pub open spec fn field_of(v: serde_json::Value, key: Seq<char>) -> Field {
    match member_of(v, key) {
        None => Field::Absent,
        Some(x) => kind(x),
    }
}

pub open spec fn hex_digit(d: nat) -> char {
    if d < 10 {
        crate::session::digit(d)
    } else if d == 10 { 'a' }
    else if d == 11 { 'b' }
    else if d == 12 { 'c' }
    else if d == 13 { 'd' }
    else if d == 14 { 'e' }
    else { 'f' }
}

/// How one character stands inside a JSON string.
pub open spec fn escaped(c: char) -> Seq<char> {
    if c == '"' {
        seq!['\\', '"']
    } else if c == '\\' {
        seq!['\\', '\\']
    } else if c == '\u{8}' {
        seq!['\\', 'b']
    } else if c == '\t' {
        seq!['\\', 't']
    } else if c == '\n' {
        seq!['\\', 'n']
    } else if c == '\u{c}' {
        seq!['\\', 'f']
    } else if c == '\r' {
        seq!['\\', 'r']
    } else if (c as u32) < 0x20 {
        seq!['\\', 'u', '0', '0', hex_digit((c as u32 / 16) as nat), hex_digit((c as u32 % 16) as nat)]
    } else {
        seq![c]
    }
}

pub open spec fn escape_all(s: Seq<char>) -> Seq<char>
    decreases s.len(),
{
    if s.len() == 0 {
        seq![]
    } else {
        escape_all(s.drop_last()) + escaped(s.last())
    }
}

/// JSON text of a string: the string in quotes, with escapes.
pub open spec fn json_string(s: Seq<char>) -> Seq<char> {
    seq!['"'] + escape_all(s) + seq!['"']
}

/// Relies on `serde_json::from_str::<Value>`: parses one JSON text, and
/// fails exactly where it is no JSON.
#[verifier::external_body]
pub(crate) fn parse_value(text: &str) -> (r: Result<serde_json::Value, serde_json::Error>)
    ensures
        r is Ok <==> parsed(text@) is Some,
        r is Ok ==> r->Ok_0 == parsed(text@)->Some_0,
{
    serde_json::from_str(text)
}

/// Relies on `serde_json::Value::get` with a string key: the member of an
/// object of that name, `None` where there is none or the value is no object.
#[verifier::external_body]
pub(crate) fn member(v: &serde_json::Value, key: &str) -> (r: Option<serde_json::Value>)
    ensures
        r == member_of(*v, key@),
{
    v.get(key).cloned()
}

/// Relies on the variants of `serde_json::Value` and on `Value::as_str` for
/// the items of an array.
#[verifier::external_body]
pub(crate) fn kind_of(v: &serde_json::Value) -> (r: Field)
    ensures
        r == kind(*v),
        !(r is Absent),
{
    match v {
        serde_json::Value::Null => Field::Null,
        serde_json::Value::Bool(b) => Field::Bool(*b),
        serde_json::Value::String(s) => Field::Text(s.clone()),
        serde_json::Value::Array(items) => Field::List(
            items.iter().map(|x| x.as_str().map(String::from)).collect(),
        ),
        _ => Field::Other,
    }
}

/// Relies on `Display` of `serde_json::Value`: its compact JSON text.
#[verifier::external_body]
pub(crate) fn value_text(v: &serde_json::Value) -> (r: String)
    ensures
        r@ == json_text(*v),
{
    v.to_string()
}

/// Relies on `serde_json::to_string` on a `str`, which writes it in quotes,
/// with the escapes of its table of escapes, and cannot fail for it.
#[verifier::external_body]
pub(crate) fn quote(s: &str) -> (r: String)
    ensures
        r@ == json_string(s@),
{
    match serde_json::to_string(s) {
        Ok(t) => t,
        Err(_) => String::new(),
    }
}

/// Relies on `str::trim`: the text without leading and trailing whitespace.
#[verifier::external_body]
pub(crate) fn trim(s: &str) -> (r: &str)
    ensures
        r@ == trimmed(s@),
{
    s.trim()
}

} // verus!

//! A plain model of JSON documents, with parsing and string encoding
//! done by serde_json.
use vstd::prelude::*;
use vstd::string::StringExecFns;

verus! {

/// A JSON value as the formatter reads it. Numbers carry no payload: nothing
/// in this library reads one. Object members keep serde_json's order.
pub enum Json {
    Null,
    Bool(bool),
    Number,
    Str(String),
    Array(Vec<Json>),
    Object(Vec<(String, Json)>),
}

/// What serde_json makes of `text`: `None` where it is not one JSON document.
pub uninterp spec fn parsed_json(text: Seq<char>) -> Option<Json>;

/// The first member of `fields` named `key`.
pub open spec fn find_member(fields: Seq<(String, Json)>, key: Seq<char>) -> Option<Json>
    decreases fields.len(),
{
    if fields.len() == 0 {
        None
    } else if fields[0].0@ == key {
        Some(fields[0].1)
    } else {
        find_member(fields.drop_first(), key)
    }
}

/// The string held under `key` when `j` is an object and that member is a
/// string; `None` in every other case (not an object, no such member, a
/// member of another kind).
pub open spec fn str_member_of(j: Json, key: Seq<char>) -> Option<Seq<char>> {
    match member_of(j, key) {
        Some(Json::Str(s)) => Some(s@),
        _ => None,
    }
}

/// The elements of `j` when it is an array; no elements otherwise.
pub open spec fn elements_of(j: Json) -> Seq<Json> {
    match j {
        Json::Array(items) => items@,
        _ => Seq::empty(),
    }
}

/// The escape sequence that a JSON string literal writes for `c`.
pub open spec fn escaped_char(c: char) -> Seq<char> {
    if c == '"' {
        seq!['\\', '"']
    } else if c == '\\' {
        seq!['\\', '\\']
    } else if c == '\u{8}' {
        seq!['\\', 'b']
    } else if c == '\t' {
        seq!['\\', 't']
    } else if c == '\n' {
        seq!['\\', 'n']
    } else if c == '\u{c}' {
        seq!['\\', 'f']
    } else if c == '\r' {
        seq!['\\', 'r']
    } else if (c as u32) < 0x20 {
        seq!['\\', 'u', '0', '0', hex_digit((c as u32) / 16), hex_digit((c as u32) % 16)]
    } else {
        seq![c]
    }
}

/// A lower-case hexadecimal digit.
pub open spec fn hex_digit(d: u32) -> char {
    if d < 10 {
        ((d + 48) as u8) as char
    } else {
        ((d + 87) as u8) as char
    }
}

/// The characters of `s`, each escaped.
pub open spec fn escaped(s: Seq<char>) -> Seq<char>
    decreases s.len(),
{
    if s.len() == 0 {
        Seq::empty()
    } else {
        escaped(s.drop_last()) + escaped_char(s.last())
    }
}

/// `s` written as a JSON string literal.
pub open spec fn json_quoted(s: Seq<char>) -> Seq<char> {
    seq!['"'] + escaped(s) + seq!['"']
}

/// Relies on `serde_json::from_str::<serde_json::Value>` to parse `text`;
/// its value is carried over into the library's model.
#[verifier::external_body]
pub(crate) fn parse_json(text: &str) -> (r: Option<Json>)
    ensures
        r == parsed_json(text@),
{
    serde_json::from_str::<serde_json::Value>(text).ok().map(model_of)
}

/// serde_json's untyped JSON value, carried only into `model_of`.
#[verifier::external_type_specification]
#[verifier::external_body]
pub struct ExValue(serde_json::Value);

/// Moves a `serde_json::Value` into the library's model, variant by variant.
#[verifier::external_body]
fn model_of(v: serde_json::Value) -> Json {
    match v {
        serde_json::Value::Null => Json::Null,
        serde_json::Value::Bool(b) => Json::Bool(b),
        serde_json::Value::Number(_) => Json::Number,
        serde_json::Value::String(s) => Json::Str(s),
        serde_json::Value::Array(a) => Json::Array(a.into_iter().map(model_of).collect()),
        serde_json::Value::Object(m) => Json::Object(
            m.into_iter().map(|(k, x)| (k, model_of(x))).collect(),
        ),
    }
}

/// Relies on `serde_json::to_string_pretty` on a `str`: it writes the string
/// as one JSON string literal (quotes around, `"`, `\` and control characters
/// escaped, lower-case hex in `\u00XX`), and writing into memory cannot fail.
#[verifier::external_body]
pub(crate) fn quote_pretty(s: &str) -> (r: String)
    ensures
        r@ == json_quoted(s@),
{
    serde_json::to_string_pretty(s).unwrap_or_default()
}

/// Parses `text` as one JSON document.
pub fn parse(text: &str) -> (r: Option<Json>)
    ensures
        r == parsed_json(text@),
{
    parse_json(text)
}

/// Writes `s` as a JSON string literal, as serde_json's pretty printer does.
pub fn to_pretty_string_literal(s: &str) -> (r: String)
    ensures
        r@ == json_quoted(s@),
{
    quote_pretty(s)
}

/// The member named `key` of the object `j`; `None` where `j` is no object
/// or has no such member.
pub open spec fn member_of(j: Json, key: Seq<char>) -> Option<Json> {
    match j {
        Json::Object(fields) => find_member(fields@, key),
        _ => None,
    }
}

/// Looks up the member named `key` of the object `j`.
pub fn member<'a>(j: &'a Json, key: &String) -> (r: Option<&'a Json>)
    ensures
        match r {
            Some(m) => member_of(*j, key@) == Some(*m),
            None => member_of(*j, key@) is None,
        },
{
    match j {
        Json::Object(fields) => {
            let mut i: usize = 0;
            assert(fields@.skip(0) =~= fields@);
            while i < fields.len()
                invariant
                    *j == Json::Object(*fields),
                    i <= fields@.len(),
                    find_member(fields@, key@) == find_member(fields@.skip(i as int), key@),
                decreases fields@.len() - i,
            {
                assert(fields@.skip(i as int).drop_first() =~= fields@.skip(i + 1));
                assert(fields@.skip(i as int)[0] == fields@[i as int]);
                if fields[i].0.eq(key) {
                    return Some(&fields[i].1);
                }
                i += 1;
            }
            None
        },
        _ => None,
    }
}

/// The string held under `key` in the object `j` (see `str_member_of`).
pub fn str_member<'a>(j: &'a Json, key: &String) -> (r: Option<&'a String>)
    ensures
        match r {
            Some(s) => str_member_of(*j, key@) == Some(s@),
            None => str_member_of(*j, key@) is None,
        },
{
    match member(j, key) {
        Some(Json::Str(s)) => Some(s),
        _ => None,
    }
}

/// The string under `key`, or `fallback` where there is none.
pub fn str_member_or(j: &Json, key: &String, fallback: &str) -> (r: String)
    ensures
        r@ == match str_member_of(*j, key@) {
            Some(s) => s,
            None => fallback@,
        },
{
    match str_member(j, key) {
        Some(s) => s.clone(),
        None => String::from_str(fallback),
    }
}

} // verus!

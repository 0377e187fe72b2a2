//! The boundary to `serde_json`, which reads and writes the JSON text.
//!
//! Nothing in this file is proved. Each item states what `serde_json` does,
//! so that the codec can be proved against it.

use vstd::prelude::*;

verus! {

/// `serde_json::Value`: a JSON value in memory. The proofs see none of its
/// content; what it holds is `json_of`.
#[verifier::external_type_specification]
#[verifier::external_body]
pub struct ExJsonValue(serde_json::Value);

/// `serde_json::Error`: why `serde_json` could not read or write. The proofs
/// see none of its content and ask nothing of it.
#[verifier::external_type_specification]
#[verifier::external_body]
pub struct ExJsonError(serde_json::Error);

/// A JSON value, as far as the codec looks at it.
///
/// Of a number the codec wants to know one thing: whether it is an integer
/// from zero to `u64::MAX` written without fraction or exponent, and which.
/// Every other number is `OtherNumber`.
pub enum Json {
    Null,
    Bool(bool),
    Unsigned(u64),
    OtherNumber,
    Text(Seq<char>),
    List(Seq<Json>),
    Record(Map<Seq<char>, Json>),
}

/// The JSON value that a `serde_json::Value` holds.
pub uninterp spec fn json_of(value: serde_json::Value) -> Json;

/// The JSON value that `serde_json::from_str` reads from a text, or `None`
/// where it reports an error.
pub uninterp spec fn json_parsed(text: Seq<char>) -> Option<Json>;

/// The JSON string literal that `serde_json::to_string` writes for a text:
/// the text between double quotes, with the characters escaped that JSON
/// wants escaped.
pub uninterp spec fn json_quoted(text: Seq<char>) -> Seq<char>;

/// A character that `serde_json` writes as it is: every character but the
/// double quote, the backslash and the control characters below U+0020.
pub open spec fn plain_char(c: char) -> bool {
    c != '"' && c != '\\' && c as u32 >= 0x20
}

/// A text that needs no escaping: each of its characters is written as it
/// is.
pub open spec fn plain_text(text: Seq<char>) -> bool {
    forall|i: int| 0 <= i < text.len() ==> plain_char(#[trigger] text[i])
}

/// A text between two double quotes.
pub open spec fn in_quotes(text: Seq<char>) -> Seq<char> {
    seq!['"'] + text + seq!['"']
}

/// `serde_json::from_str`, read as a `serde_json::Value`. Whether it gives a
/// value, and which, depends on the text alone.
#[verifier::external_body]
pub(crate) fn parse_json(text: &str) -> (parsed: Result<serde_json::Value, serde_json::Error>)
    ensures
        match parsed {
            Ok(value) => json_parsed(text@) == Some(json_of(value)),
            Err(_) => json_parsed(text@) is None,
        },
{
    serde_json::from_str::<serde_json::Value>(text)
}

/// `serde_json::Value::get` with a string for the index: the member of that
/// name if the value is an object that has one, else `None`.
#[verifier::external_body]
pub(crate) fn json_member<'a>(value: &'a serde_json::Value, name: &str) -> (member: Option<
    &'a serde_json::Value,
>)
    ensures
        match json_of(*value) {
            Json::Record(members) if members.contains_key(name@) => member matches Some(found)
                && json_of(*found) == members[name@],
            _ => member is None,
        },
{
    value.get(name)
}

/// `serde_json::Value::as_str`: the text of a string, `None` for every other
/// value.
pub assume_specification[ serde_json::Value::as_str ](value: &serde_json::Value) -> (text: Option<
    &str,
>)
    ensures
        match json_of(*value) {
            Json::Text(chars) => text matches Some(found) && found@ == chars,
            _ => text is None,
        },
;

/// `serde_json::Value::as_u64`: the number, if the value is an integer from
/// zero to `u64::MAX`; `None` for every other value.
pub assume_specification[ serde_json::Value::as_u64 ](value: &serde_json::Value) -> (number:
    Option<u64>)
    ensures
        match json_of(*value) {
            Json::Unsigned(n) => number == Some(n),
            _ => number is None,
        },
;

/// `serde_json::Value::is_null`: whether the value is `null`.
pub assume_specification[ serde_json::Value::is_null ](value: &serde_json::Value) -> (null: bool)
    ensures
        null == (json_of(*value) is Null),
;

/// `serde_json::Value::as_array`: the elements of an array, in order; `None`
/// for every other value.
pub assume_specification[ serde_json::Value::as_array ](value: &serde_json::Value) -> (items:
    Option<&Vec<serde_json::Value>>)
    ensures
        match json_of(*value) {
            Json::List(elements) => items matches Some(found) && found@.map_values(
                |item: serde_json::Value| json_of(item),
            ) == elements,
            _ => items is None,
        },
;

/// `serde_json::to_string` on a string slice. It writes into memory, and a
/// string slice always serialises, so it returns `Ok`. It writes a double
/// quote, the text with its escapes, and a double quote; it escapes the
/// double quote, the backslash and the characters below U+0020 and no
/// others, so a text without them stands between the quotes as it is.
#[verifier::external_body]
pub(crate) fn quote_json(text: &str) -> (quoted: Result<String, serde_json::Error>)
    ensures
        quoted is Ok,
        quoted matches Ok(literal) ==> literal@ == json_quoted(text@),
        quoted matches Ok(literal) ==> (plain_text(text@) ==> literal@ == in_quotes(text@)),
{
    serde_json::to_string(text)
}

} // verus!

//! JSON as the proxy uses it: request bodies and the configuration are read
//! with `serde_json`, and the objects that answer a request are printed by
//! it.
use vstd::prelude::*;

verus! {

/// A JSON value of `serde_json`, opaque to proofs.
#[verifier::external_type_specification]
#[verifier::external_body]
pub struct ExJsonValue(serde_json::Value);

/// A parse error of `serde_json`, opaque to proofs.
#[verifier::external_type_specification]
#[verifier::external_body]
pub struct ExJsonError(serde_json::Error);

/// The value that `serde_json` reads from `text`, or its error.
pub uninterp spec fn json_document(text: Seq<u8>) -> Result<serde_json::Value, serde_json::Error>;

/// The member `key` of `v`, where `v` is an object that has one.
pub uninterp spec fn json_member(v: serde_json::Value, key: Seq<char>) -> Option<serde_json::Value>;

/// The text of `v`, where `v` is a string.
pub uninterp spec fn json_string(v: serde_json::Value) -> Option<Seq<char>>;

/// The number `v`, where `v` is an integer from zero to `u64::MAX`.
pub uninterp spec fn json_u64(v: serde_json::Value) -> Option<u64>;

/// The truth value `v`, where `v` is a boolean.
pub uninterp spec fn json_bool(v: serde_json::Value) -> Option<bool>;

/// What `serde_json` prints for the error `e`.
pub uninterp spec fn json_error_text(e: serde_json::Error) -> Seq<char>;

/// What `serde_json` prints for an object with the one member `key`, a
/// string.
pub uninterp spec fn json_text_object(key: Seq<char>, value: Seq<char>) -> Seq<char>;

/// What `serde_json` prints for an object with a string member and a number
/// member.
pub uninterp spec fn json_text_number_object(
    text_key: Seq<char>,
    text: Seq<char>,
    number_key: Seq<char>,
    number: u64,
) -> Seq<char>;

/// What `serde_json` prints for an object with two members that are lists
/// of numbers and one member that is a number.
pub uninterp spec fn json_lists_number_object(
    first_key: Seq<char>,
    first: Seq<u16>,
    second_key: Seq<char>,
    second: Seq<u16>,
    number_key: Seq<char>,
    number: u64,
) -> Seq<char>;

/// `serde_json::from_slice` at the type `Value`: the result is a function of
/// the bytes alone.
#[verifier::external_body]
pub(crate) fn read_document(text: &[u8]) -> (r: Result<serde_json::Value, serde_json::Error>)
    ensures
        r == json_document(text@),
{
    serde_json::from_slice(text)
}

/// `serde_json::Value::get` with a string index: the member of that name if
/// the value is an object that has one, else `None`.
#[verifier::external_body]
pub(crate) fn member<'a>(v: &'a serde_json::Value, key: &str) -> (r: Option<&'a serde_json::Value>)
    ensures
        r is Some <==> json_member(*v, key@) is Some,
        r matches Some(m) ==> json_member(*v, key@) == Some(*m),
{
    v.get(key)
}

/// `serde_json::Value::as_str`: the text if the value is a string.
#[verifier::external_body]
pub(crate) fn string_of<'a>(v: &'a serde_json::Value) -> (r: Option<&'a str>)
    ensures
        r is Some <==> json_string(*v) is Some,
        r matches Some(s) ==> json_string(*v) == Some(s@),
{
    v.as_str()
}

/// `serde_json::Value::as_u64`: the number if the value is an integer that
/// fits `u64`.
#[verifier::external_body]
pub(crate) fn u64_of(v: &serde_json::Value) -> (r: Option<u64>)
    ensures
        r == json_u64(*v),
{
    v.as_u64()
}

/// `serde_json::Value::as_bool`: the truth value if the value is a boolean.
#[verifier::external_body]
pub(crate) fn bool_of(v: &serde_json::Value) -> (r: Option<bool>)
    ensures
        r == json_bool(*v),
{
    v.as_bool()
}

/// `Display` of `serde_json::Error`, through `to_string`.
#[verifier::external_body]
pub(crate) fn error_text(e: &serde_json::Error) -> (r: String)
    ensures
        r@ == json_error_text(*e),
{
    e.to_string()
}

/// `Display` of `serde_json::Value`, through `to_string`, for the object
/// that `serde_json::Map::insert` builds from one key and a string.
#[verifier::external_body]
pub(crate) fn print_text_object(key: &str, value: &str) -> (r: String)
    ensures
        r@ == json_text_object(key@, value@),
{
    let mut map = serde_json::Map::new();
    map.insert(key.to_owned(), serde_json::Value::from(value));
    serde_json::Value::Object(map).to_string()
}

/// `Display` of `serde_json::Value`, through `to_string`, for the object
/// that `serde_json::Map::insert` builds from a string member and a number
/// member.
#[verifier::external_body]
pub(crate) fn print_text_number_object(text_key: &str, text: &str, number_key: &str, number: u64) -> (r:
    String)
    ensures
        r@ == json_text_number_object(text_key@, text@, number_key@, number),
{
    let mut map = serde_json::Map::new();
    map.insert(text_key.to_owned(), serde_json::Value::from(text));
    map.insert(number_key.to_owned(), serde_json::Value::from(number));
    serde_json::Value::Object(map).to_string()
}

/// `Display` of `serde_json::Value`, through `to_string`, for the object
/// that `serde_json::Map::insert` builds from two lists of numbers and a
/// number.
#[verifier::external_body]
pub(crate) fn print_lists_number_object(
    first_key: &str,
    first: &Vec<u16>,
    second_key: &str,
    second: &Vec<u16>,
    number_key: &str,
    number: u64,
) -> (r: String)
    ensures
        r@ == json_lists_number_object(
            first_key@,
            first@,
            second_key@,
            second@,
            number_key@,
            number,
        ),
{
    let mut map = serde_json::Map::new();
    map.insert(first_key.to_owned(), serde_json::Value::from(first.clone()));
    map.insert(second_key.to_owned(), serde_json::Value::from(second.clone()));
    map.insert(number_key.to_owned(), serde_json::Value::from(number));
    serde_json::Value::Object(map).to_string()
}

/// The message of the error with which `text` fails to parse, if it fails.
pub open spec fn document_error(text: Seq<u8>) -> Option<Seq<char>> {
    match json_document(text) {
        Ok(_) => None,
        Err(e) => Some(json_error_text(e)),
    }
}

/// Reads a JSON document. The error is the parser's message.
pub fn parse(text: &[u8]) -> (r: Result<serde_json::Value, String>)
    ensures
        r matches Ok(v) ==> json_document(text@) == Ok::<serde_json::Value, serde_json::Error>(v),
        r matches Err(m) ==> document_error(text@) == Some(m@),
{
    match read_document(text) {
        Ok(v) => Ok(v),
        Err(e) => Err(error_text(&e)),
    }
}

/// The text of the member `key` of `v`, where that member is a string.
pub open spec fn member_text(v: serde_json::Value, key: Seq<char>) -> Option<Seq<char>> {
    match json_member(v, key) {
        Some(m) => json_string(m),
        None => None,
    }
}

/// The member `key` of `v` as `u64`, where it is such a number.
pub open spec fn member_u64(v: serde_json::Value, key: Seq<char>) -> Option<u64> {
    match json_member(v, key) {
        Some(m) => json_u64(m),
        None => None,
    }
}

/// The member `key` of `v` as a boolean, where it is one.
pub open spec fn member_bool(v: serde_json::Value, key: Seq<char>) -> Option<bool> {
    match json_member(v, key) {
        Some(m) => json_bool(m),
        None => None,
    }
}

/// The text of the member `key` of `v`, where that member is a string.
pub fn get_text(v: &serde_json::Value, key: &str) -> (r: Option<String>)
    ensures
        r is Some <==> member_text(*v, key@) is Some,
        r matches Some(s) ==> member_text(*v, key@) == Some(s@),
{
    match member(v, key) {
        Some(m) => match string_of(m) {
            Some(s) => Some(s.to_owned()),
            None => None,
        },
        None => None,
    }
}

/// The member `key` of `v` as `u64`, where it is such a number.
pub fn get_u64(v: &serde_json::Value, key: &str) -> (r: Option<u64>)
    ensures
        r == member_u64(*v, key@),
{
    match member(v, key) {
        Some(m) => u64_of(m),
        None => None,
    }
}

/// The member `key` of `v` as a boolean, where it is one.
pub fn get_bool(v: &serde_json::Value, key: &str) -> (r: Option<bool>)
    ensures
        r == member_bool(*v, key@),
{
    match member(v, key) {
        Some(m) => bool_of(m),
        None => None,
    }
}

/// The body of every status report: the object with the members `message`
/// and `status`, as `serde_json` prints it.
pub open spec fn status_message_text(status: u16, message: Seq<char>) -> Seq<char> {
    json_text_number_object("message"@, message, "status"@, status as u64)
}

/// The body of a status report.
pub fn status_message_body(status: u16, message: &str) -> (r: String)
    ensures
        r@ == status_message_text(status, message@),
{
    print_text_number_object("message", message, "status", status as u64)
}

/// The object with the one member `key`, a string, as `serde_json` prints
/// it.
pub open spec fn single_member_text(key: Seq<char>, value: Seq<char>) -> Seq<char> {
    json_text_object(key, value)
}

/// The text of an object with the one member `key`.
pub fn single_member_body(key: &str, value: &str) -> (r: String)
    ensures
        r@ == single_member_text(key@, value@),
{
    print_text_object(key, value)
}

} // verus!

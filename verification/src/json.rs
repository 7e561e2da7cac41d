//! JSON values, as far as the relay reads and writes them.
//!
//! Parsing, printing and the values themselves are those of `serde_json`.
//! A value is opaque to the verifier; [`json_of`] names what it holds, and
//! the functions at the end of this file say, without proof, how the calls
//! into `serde_json` relate to that.

use vstd::prelude::*;

verus! {

/// A JSON value of `serde_json`.
#[verifier::external_type_specification]
#[verifier::external_body]
pub struct ExValue(serde_json::Value);

/// The members of a JSON object of `serde_json`, by key.
#[verifier::external_type_specification]
#[verifier::external_body]
#[verifier::reject_recursive_types(K)]
#[verifier::reject_recursive_types(V)]
pub struct ExMembers<K, V>(serde_json::Map<K, V>);

/// The error of a failed parse.
#[verifier::external_type_specification]
#[verifier::external_body]
pub struct ExParseError(serde_json::Error);

/// The members of a JSON object as a mathematical value: the member values
/// by key.
pub type Members = Map<Seq<char>, Json>;

/// A JSON value as a mathematical value.
pub enum Json {
    Null,
    Bool(bool),
    /// A number that is held as an integer.
    Integer(int),
    /// A number that is held as a double: its sixty-four bits.
    Real(u64),
    Text(Seq<char>),
    List(Seq<Json>),
    Object(Members),
}

impl Json {
    /// The member of an object under `key`; nothing for a missing key and
    /// for a value that is not an object.
    pub open spec fn member(self, key: Seq<char>) -> Option<Json> {
        match self {
            Json::Object(members) => if members.contains_key(key) {
                Some(members[key])
            } else {
                None
            },
            _ => None,
        }
    }

    /// The member under `key`, where it is a string.
    pub open spec fn text_member(self, key: Seq<char>) -> Option<Seq<char>> {
        match self.member(key) {
            Some(Json::Text(text)) => Some(text),
            _ => None,
        }
    }

    /// The member under `key`, where it is an integer within `i64`.
    pub open spec fn integer_member(self, key: Seq<char>) -> Option<i64> {
        match self.member(key) {
            Some(Json::Integer(n)) => if i64::MIN <= n <= i64::MAX {
                Some(n as i64)
            } else {
                None
            },
            _ => None,
        }
    }
}

/// What a value of `serde_json` holds.
pub uninterp spec fn json_of(value: serde_json::Value) -> Json;

/// What a member map of `serde_json` holds.
pub uninterp spec fn members_of(members: serde_json::Map<String, serde_json::Value>) -> Members;

/// The value that `serde_json` reads from a text; nothing where it rejects
/// the text.
pub uninterp spec fn json_parse(text: Seq<char>) -> Option<Json>;

/// The compact text that `serde_json` prints for a value.
pub uninterp spec fn json_text(json: Json) -> Seq<char>;

/// Calls `serde_json::from_str` for a `Value`. The result is a function of
/// the text alone, named by [`json_parse`].
#[verifier::external_body]
pub(crate) fn parse(text: &str) -> (parsed: Result<serde_json::Value, serde_json::Error>)
    ensures
        match parsed {
            Ok(value) => json_parse(text@) == Some(json_of(value)),
            Err(_) => json_parse(text@) is None,
        },
{
    serde_json::from_str::<serde_json::Value>(text)
}

/// Calls `Value::get` with a string key: the member of an object under the
/// key, nothing where the key is missing or the value is not an object.
#[verifier::external_body]
pub(crate) fn member<'a>(value: &'a serde_json::Value, key: &str) -> (found: Option<
    &'a serde_json::Value,
>)
    ensures
        match found {
            Some(inner) => json_of(*value).member(key@) == Some(json_of(*inner)),
            None => json_of(*value).member(key@) is None,
        },
{
    value.get(key)
}

/// Calls `Value::as_str`: the text of a string value, nothing for any other
/// value.
#[verifier::external_body]
pub(crate) fn as_text<'a>(value: &'a serde_json::Value) -> (text: Option<&'a str>)
    ensures
        match text {
            Some(t) => json_of(*value) == Json::Text(t@),
            None => !(json_of(*value) is Text),
        },
{
    value.as_str()
}

/// Calls `Value::as_i64`: the number where the value is an integer that
/// fits `i64`, nothing for any other value.
#[verifier::external_body]
pub(crate) fn as_integer(value: &serde_json::Value) -> (number: Option<i64>)
    ensures
        match number {
            Some(n) => json_of(*value) == Json::Integer(n as int),
            None => !(json_of(*value) matches Json::Integer(n) && i64::MIN <= n <= i64::MAX),
        },
{
    value.as_i64()
}

/// Makes the string value `Value::String` of a text.
#[verifier::external_body]
pub(crate) fn text_value(text: String) -> (value: serde_json::Value)
    ensures
        json_of(value) == Json::Text(text@),
{
    serde_json::Value::String(text)
}

/// Calls `Value::from` on an `i64`: the number value that holds it as an
/// integer.
#[verifier::external_body]
pub(crate) fn integer_value(number: i64) -> (value: serde_json::Value)
    ensures
        json_of(value) == Json::Integer(number as int),
{
    serde_json::Value::from(number)
}

/// Makes the boolean value `Value::Bool`.
#[verifier::external_body]
pub(crate) fn bool_value(flag: bool) -> (value: serde_json::Value)
    ensures
        json_of(value) == Json::Bool(flag),
{
    serde_json::Value::Bool(flag)
}

/// Calls `Map::new`: a member map without members.
#[verifier::external_body]
pub(crate) fn no_members() -> (members: serde_json::Map<String, serde_json::Value>)
    ensures
        members_of(members) == Members::empty(),
{
    serde_json::Map::new()
}

/// Calls `Map::insert`: the map then holds `value` under `key`, in place
/// of what it held there, and its other members as before.
#[verifier::external_body]
pub(crate) fn put_member(
    members: &mut serde_json::Map<String, serde_json::Value>,
    key: &str,
    value: serde_json::Value,
)
    ensures
        members_of(*final(members)) == members_of(*old(members)).insert(key@, json_of(value)),
{
    members.insert(key.to_owned(), value);
}

/// Makes the object value `Value::Object` of a member map.
#[verifier::external_body]
pub(crate) fn object_value(members: serde_json::Map<String, serde_json::Value>) -> (value:
    serde_json::Value)
    ensures
        json_of(value) == Json::Object(members_of(members)),
{
    serde_json::Value::Object(members)
}

/// Calls `to_string` on a value, which prints it in compact form. The
/// result is a function of the value alone, named by [`json_text`].
#[verifier::external_body]
pub(crate) fn render(value: &serde_json::Value) -> (text: String)
    ensures
        text@ == json_text(json_of(*value)),
{
    value.to_string()
}

} // verus!

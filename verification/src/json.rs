//! JSON values as `serde_json` holds them, and what contracts say of them.
//!
//! The values themselves are opaque to the verifier. [`json_of`] and
//! [`entries_of`] name what a value and an object hold, and the functions
//! below state, without proof, how each call into `serde_json` relates to
//! those names.

use vstd::prelude::*;

verus! {

/// What a JSON value holds.
pub enum Json {
    Null,
    Bool(bool),
    /// A number that is held as an integer: any from `i64::MIN` to `u64::MAX`
    /// that was made from an integer or written without fraction or exponent.
    Integer(int),
    /// Any other number.
    Fraction,
    Text(Seq<char>),
    Array(Seq<Json>),
    Object(Map<Seq<char>, Json>),
}

/// `serde_json::Value`, a JSON value of any kind.
#[verifier::external_type_specification]
#[verifier::external_body]
pub struct ExValue(serde_json::Value);

/// `serde_json::Map`, the members of a JSON object.
#[verifier::external_type_specification]
#[verifier::external_body]
#[verifier::reject_recursive_types(K)]
#[verifier::reject_recursive_types(V)]
pub struct ExObject<K, V>(serde_json::Map<K, V>);

/// `serde_json::Error`, the reason why JSON could not be written or read.
#[verifier::external_type_specification]
#[verifier::external_body]
pub struct ExJsonError(serde_json::Error);

/// What `value` holds.
pub uninterp spec fn json_of(value: serde_json::Value) -> Json;

/// The members of `object`: each key with what its value holds.
pub uninterp spec fn entries_of(object: serde_json::Map<String, serde_json::Value>) -> Map<
    Seq<char>,
    Json,
>;

/// The members of the JSON object that `text` spells, or `None` where `text`
/// is not the text of one JSON object.
pub uninterp spec fn parsed_object(text: Seq<u8>) -> Option<Map<Seq<char>, Json>>;

/// The characters of each string of a list, in order.
pub open spec fn texts_of(list: Vec<String>) -> Seq<Seq<char>> {
    list@.map_values(|item: String| item@)
}

/// The array of the given strings.
pub open spec fn text_array(items: Seq<Seq<char>>) -> Json {
    Json::Array(items.map_values(|item: Seq<char>| Json::Text(item)))
}

/// `serde_json::Value::from` on a string slice: a JSON string of the same
/// characters.
#[verifier::external_body]
pub(crate) fn text_value(text: &str) -> (value: serde_json::Value)
    ensures
        json_of(value) == Json::Text(text@),
{
    serde_json::Value::from(text)
}

/// `serde_json::Value::from` on a `u64`: the JSON number of that integer.
#[verifier::external_body]
pub(crate) fn integer_value(n: u64) -> (value: serde_json::Value)
    ensures
        json_of(value) == Json::Integer(n as int),
{
    serde_json::Value::from(n)
}

/// `serde_json::to_value` on a list of strings: it succeeds, with the array of
/// those strings in their order.
#[verifier::external_body]
pub(crate) fn text_list_value(items: &Vec<String>) -> (converted: Result<
    serde_json::Value,
    serde_json::Error,
>)
    ensures
        converted is Ok,
        json_of(converted->Ok_0) == text_array(texts_of(*items)),
{
    serde_json::to_value(items)
}

/// `serde_json::Map::new`: an object without members.
#[verifier::external_body]
pub(crate) fn empty_object() -> (object: serde_json::Map<String, serde_json::Value>)
    ensures
        entries_of(object).dom() == Set::<Seq<char>>::empty(),
{
    serde_json::Map::new()
}

/// `serde_json::Map::insert`: afterwards `key` stands for `value`, in place of
/// what it stood for before, and every other member is as it was.
#[verifier::external_body]
pub(crate) fn object_insert(
    object: &mut serde_json::Map<String, serde_json::Value>,
    key: &str,
    value: serde_json::Value,
)
    ensures
        entries_of(*final(object)) == entries_of(*old(object)).insert(key@, json_of(value)),
{
    object.insert(key.to_owned(), value);
}

/// `serde_json::Map::get`: the value that `key` stands for, if it is a member.
#[verifier::external_body]
pub(crate) fn object_get<'a>(
    object: &'a serde_json::Map<String, serde_json::Value>,
    key: &str,
) -> (found: Option<&'a serde_json::Value>)
    ensures
        match found {
            Some(value) => entries_of(*object).contains_key(key@) && json_of(*value)
                == entries_of(*object)[key@],
            None => !entries_of(*object).contains_key(key@),
        },
{
    object.get(key)
}

/// `serde_json::from_slice` into a `serde_json::Map`: the object that the
/// bytes spell, or an error where they spell none.
#[verifier::external_body]
pub(crate) fn parse_object(text: &[u8]) -> (parsed: Result<
    serde_json::Map<String, serde_json::Value>,
    serde_json::Error,
>)
    ensures
        match parsed {
            Ok(object) => parsed_object(text@) == Some(entries_of(object)),
            Err(_) => parsed_object(text@) is None,
        },
{
    serde_json::from_slice(text)
}

/// `serde_json::Value::as_i64`: the integer that a number holds, where it has
/// no fraction and fits an `i64`.
#[verifier::external_body]
pub(crate) fn value_as_i64(value: &serde_json::Value) -> (number: Option<i64>)
    ensures
        number == match json_of(*value) {
            Json::Integer(n) => if i64::MIN <= n <= i64::MAX {
                Some(n as i64)
            } else {
                None
            },
            _ => None,
        },
{
    value.as_i64()
}

/// `serde_json::Value::as_str`: the characters of a JSON string, and `None`
/// for any other value.
#[verifier::external_body]
pub(crate) fn value_as_str<'a>(value: &'a serde_json::Value) -> (text: Option<&'a str>)
    ensures
        match text {
            Some(s) => json_of(*value) == Json::Text(s@),
            None => !(json_of(*value) is Text),
        },
{
    value.as_str()
}

/// `serde_json::Value::is_null`.
#[verifier::external_body]
pub(crate) fn value_is_null(value: &serde_json::Value) -> (null: bool)
    ensures
        null == (json_of(*value) is Null),
{
    value.is_null()
}

/// `serde::de::Error::custom` for a `serde_json::Error`: an error that says
/// `reason`. Nothing is claimed of it.
#[verifier::external_body]
pub(crate) fn data_error(reason: &str) -> (error: serde_json::Error) {
    serde::de::Error::custom(reason)
}

} // verus!

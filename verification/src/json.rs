//! JSON values: what a `serde_json` value holds, and the few operations that the
//! search logic performs on one.
use vstd::prelude::*;

use crate::text::signed_decimal;

verus! {

/// What a JSON value holds. A number is given by its text.
pub enum Json {
    Null,
    Bool(bool),
    Number(Seq<char>),
    Text(Seq<char>),
    Array(Seq<Json>),
    Object(Map<Seq<char>, Json>),
}

/// The JSON value of the `serde_json` crate.
#[verifier::external_type_specification]
#[verifier::external_body]
pub struct ExValue(serde_json::Value);

/// The object of the `serde_json` crate: a map from names to values.
#[verifier::external_type_specification]
#[verifier::external_body]
#[verifier::reject_recursive_types(K)]
#[verifier::reject_recursive_types(V)]
pub struct ExObject<K, V>(serde_json::Map<K, V>);

/// What a JSON value holds.
pub uninterp spec fn json(value: serde_json::Value) -> Json;

/// The fields that a JSON object holds.
pub uninterp spec fn fields(object: serde_json::Map<String, serde_json::Value>) -> Map<
    Seq<char>,
    Json,
>;

/// What each of the values holds.
pub open spec fn jsons(values: Seq<serde_json::Value>) -> Seq<Json> {
    Seq::new(values.len(), |i: int| json(values[i]))
}

/// What the value holds, where there is one.
pub open spec fn optional_json(value: Option<serde_json::Value>) -> Option<Json> {
    match value {
        Some(v) => Some(json(v)),
        None => None,
    }
}

/// `serde_json::Value::clone`: the clone holds what the value holds.
pub assume_specification[ <serde_json::Value as Clone>::clone ](
    value: &serde_json::Value,
) -> (copy: serde_json::Value)
    ensures
        json(copy) == json(*value),
;

/// `serde_json::Value::as_object_mut`: the object inside a value that is one.
/// What is done to that object is done to the value. Of any other value there
/// is no object, and it stays as it is.
pub assume_specification<'a>[ serde_json::Value::as_object_mut ](
    value: &'a mut serde_json::Value,
) -> (object: Option<&'a mut serde_json::Map<String, serde_json::Value>>)
    ensures
        match object {
            Some(o) => json(*old(value)) == Json::Object(fields(*o)) && json(*final(value))
                == Json::Object(fields(*final(o))),
            None => !(json(*old(value)) is Object) && json(*final(value)) == json(*old(value)),
        },
;

/// `serde_json::Value::as_str`: the text of a value that is one.
pub assume_specification<'a>[ serde_json::Value::as_str ](
    value: &'a serde_json::Value,
) -> (text: Option<&'a str>)
    ensures
        match text {
            Some(t) => json(*value) == Json::Text(t@),
            None => !(json(*value) is Text),
        },
;

/// `serde_json::Value::is_array`: whether the value is an array.
pub assume_specification[ serde_json::Value::is_array ](value: &serde_json::Value) -> (array: bool)
    ensures
        array == (json(*value) is Array),
;

/// `serde_json::Map::new`: an object without fields.
pub assume_specification[ serde_json::Map::<String, serde_json::Value>::new ]() -> (
object: serde_json::Map<String, serde_json::Value>)
    ensures
        fields(object) == (Map::<Seq<char>, Json>::empty()),
;

/// `serde_json::Map::insert`: the field is set, whether it was there or not, and
/// what it held before is handed back.
pub assume_specification[ serde_json::Map::<String, serde_json::Value>::insert ](
    object: &mut serde_json::Map<String, serde_json::Value>,
    name: String,
    value: serde_json::Value,
) -> (previous: Option<serde_json::Value>)
    ensures
        fields(*final(object)) == fields(*old(object)).insert(name@, json(value)),
        match previous {
            Some(p) => fields(*old(object)).contains_key(name@) && json(p) == fields(
                *old(object),
            )[name@],
            None => !fields(*old(object)).contains_key(name@),
        },
;

/// `serde_json::Map::entry` and `Entry::or_insert`: the field is set where the
/// object does not have it; a field that is there keeps its value.
#[verifier::external_body]
fn entry_or_insert(
    object: &mut serde_json::Map<String, serde_json::Value>,
    name: &str,
    value: serde_json::Value,
)
    ensures
        fields(*final(object)) == with_missing(fields(*old(object)), name@, json(value)),
{
    object.entry(name).or_insert(value);
}

/// `serde_json::Value::get` with a name: the field of that name of an object.
#[verifier::external_body]
fn get_field<'a>(value: &'a serde_json::Value, name: &str) -> (field: Option<&'a serde_json::Value>)
    ensures
        match field {
            Some(f) => json(*value) is Object && json(*value)->Object_0.contains_key(name@) && json(
                *f,
            ) == json(*value)->Object_0[name@],
            None => !(json(*value) is Object && json(*value)->Object_0.contains_key(name@)),
        },
{
    value.get(name)
}

/// `serde_json::Value::Null`.
#[verifier::external_body]
pub(crate) fn null() -> (value: serde_json::Value)
    ensures
        json(value) == Json::Null,
{
    serde_json::Value::Null
}

/// `serde_json::Value::String` of a text.
#[verifier::external_body]
pub(crate) fn text_value(text: String) -> (value: serde_json::Value)
    ensures
        json(value) == Json::Text(text@),
{
    serde_json::Value::String(text)
}

/// `serde_json::Value::from` an integer: a number whose text is its numeral.
#[verifier::external_body]
pub(crate) fn integer_value(n: i64) -> (value: serde_json::Value)
    ensures
        json(value) == Json::Number(signed_decimal(n as int)),
{
    serde_json::Value::from(n)
}

/// `serde_json::Value::Array` of the values.
#[verifier::external_body]
pub(crate) fn array_value(values: Vec<serde_json::Value>) -> (value: serde_json::Value)
    ensures
        json(value) == Json::Array(jsons(values@)),
{
    serde_json::Value::Array(values)
}

/// `serde_json::Value::Object` of an object.
#[verifier::external_body]
pub(crate) fn object_value(
    object: serde_json::Map<String, serde_json::Value>,
) -> (value: serde_json::Value)
    ensures
        json(value) == Json::Object(fields(object)),
{
    serde_json::Value::Object(object)
}

/// The fields with one more, where it is missing.
pub open spec fn with_missing(
    fields: Map<Seq<char>, Json>,
    name: Seq<char>,
    value: Json,
) -> Map<Seq<char>, Json> {
    if fields.contains_key(name) {
        fields
    } else {
        fields.insert(name, value)
    }
}

/// A value with a text field added, where it is an object without that field.
pub open spec fn with_missing_text(value: Json, name: Seq<char>, text: Seq<char>) -> Json {
    match value {
        Json::Object(f) => Json::Object(with_missing(f, name, Json::Text(text))),
        other => other,
    }
}

/// Adds a text field to a value that is an object without that field. A field
/// that is there keeps its value, and a value that is no object stays as it is.
pub fn add_missing_text(value: &mut serde_json::Value, name: &str, text: &str)
    ensures
        json(*final(value)) == with_missing_text(json(*old(value)), name@, text@),
{
    match value.as_object_mut() {
        Some(object) => {
            entry_or_insert(object, name, text_value(text.to_owned()));
        },
        None => {},
    }
}

/// The text field of that name, where the value is an object that has it.
pub open spec fn text_field(value: Json, name: Seq<char>) -> Option<Seq<char>> {
    match value {
        Json::Object(f) => if f.contains_key(name) && f[name] is Text {
            Some(f[name]->Text_0)
        } else {
            None
        },
        _ => None,
    }
}

/// The text field of that name, where the value is an object that has it.
pub fn get_text_field(value: &serde_json::Value, name: &str) -> (text: Option<String>)
    ensures
        match text {
            Some(t) => text_field(json(*value), name@) == Some(t@),
            None => text_field(json(*value), name@) is None,
        },
{
    match get_field(value, name) {
        Some(field) => match field.as_str() {
            Some(t) => Some(t.to_owned()),
            None => None,
        },
        None => None,
    }
}

/// Adding a missing field twice is the same as adding it once, whatever text
/// the second addition carries.
pub proof fn lemma_first_text_wins(
    value: Json,
    name: Seq<char>,
    first: Seq<char>,
    second: Seq<char>,
)
    ensures
        with_missing_text(with_missing_text(value, name, first), name, second) == with_missing_text(
            value,
            name,
            first,
        ),
{
}

/// Adding a missing field leaves every other field as it is.
pub proof fn lemma_other_fields_stay(
    value: Json,
    name: Seq<char>,
    text: Seq<char>,
    other: Seq<char>,
)
    requires
        other != name,
    ensures
        text_field(with_missing_text(value, name, text), other) == text_field(value, other),
{
}

} // verus!

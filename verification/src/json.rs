//! JSON values, and the text parser that produces them.

use vstd::prelude::*;

verus! {

/// One member of a JSON object.
#[derive(Debug, PartialEq, Eq)]
pub struct Member {
    pub key: String,
    pub value: Json,
}

/// A JSON value. Of a number it keeps what the records of this crate can hold: its value
/// where it is an integer that fits an `i64`, and `None` for every other number.
#[derive(Debug, PartialEq, Eq)]
pub enum Json {
    Null,
    Bool(bool),
    Number(Option<i64>),
    Text(String),
    Array(Vec<Json>),
    Object(Vec<Member>),
}

/// The mathematical value of a [`Json`].
pub ghost enum JsonValue {
    Null,
    Bool(bool),
    Number(Option<i64>),
    Text(Seq<char>),
    Array(Seq<JsonValue>),
    Object(Seq<(Seq<char>, JsonValue)>),
}

/// The value that a [`Json`] stands for.
pub open spec fn value_of(json: Json) -> JsonValue
    decreases json,
{
    match json {
        Json::Null => JsonValue::Null,
        Json::Bool(b) => JsonValue::Bool(b),
        Json::Number(n) => JsonValue::Number(n),
        Json::Text(s) => JsonValue::Text(s@),
        Json::Array(items) => JsonValue::Array(
            Seq::new(
                items.len() as nat,
                |i: int|
                    if 0 <= i < items.len() {
                        value_of(items[i])
                    } else {
                        JsonValue::Null
                    },
            ),
        ),
        Json::Object(members) => JsonValue::Object(
            Seq::new(
                members.len() as nat,
                |i: int|
                    if 0 <= i < members.len() {
                        (members[i].key@, value_of(members[i].value))
                    } else {
                        (Seq::empty(), JsonValue::Null)
                    },
            ),
        ),
    }
}

impl View for Json {
    type V = JsonValue;

    open spec fn view(&self) -> JsonValue {
        value_of(*self)
    }
}

/// The views of the items of an array, in their order.
pub open spec fn values(items: Seq<Json>) -> Seq<JsonValue> {
    Seq::new(items.len(), |i: int| items[i]@)
}

/// The members of an object as pairs of key and value, in their order.
pub open spec fn entries(members: Seq<Member>) -> Seq<(Seq<char>, JsonValue)> {
    Seq::new(members.len(), |i: int| (members[i].key@, members[i].value@))
}

/// An array's view holds the views of its items.
pub proof fn array_view(items: Vec<Json>)
    ensures
        Json::Array(items)@ == JsonValue::Array(values(items@)),
{
    let s = Json::Array(items)@->Array_0;
    assert(s.len() == items@.len());
    assert(s =~= values(items@));
}

/// An object's view holds its members as pairs.
pub proof fn object_view(members: Vec<Member>)
    ensures
        Json::Object(members)@ == JsonValue::Object(entries(members@)),
{
    assert(Json::Object(members)@->Object_0 =~= entries(members@));
}

#[verifier::external_type_specification]
#[verifier::external_body]
pub struct ExValue(serde_json::Value);

/// What a `serde_json::Value` holds, as a [`JsonValue`]: its variants one for one, a
/// number by `Number::as_i64`, an object's members in the order in which its map
/// hands them out.
pub uninterp spec fn value_content(value: serde_json::Value) -> JsonValue;

/// What `serde_json::from_str` makes of a text that is read as a `serde_json::Value`:
/// the value it holds, or the message of the error.
pub uninterp spec fn json_parse(text: Seq<char>) -> Result<JsonValue, Seq<char>>;

/// Calls `serde_json::from_str` for a `serde_json::Value`. Nothing is claimed of the
/// outcome but that it is the outcome for this text: the parsed value, or the error
/// as `Display` renders it.
#[verifier::external_body]
fn parse_value(text: &str) -> (r: Result<serde_json::Value, String>)
    ensures
        match r {
            Ok(value) => json_parse(text@) == Ok::<JsonValue, Seq<char>>(value_content(value)),
            Err(message) => json_parse(text@) == Err::<JsonValue, Seq<char>>(message@),
        },
{
    match serde_json::from_str::<serde_json::Value>(text) {
        Ok(value) => Ok(value),
        Err(error) => Err(error.to_string()),
    }
}

/// Moves a `serde_json::Value` into a [`Json`], variant by variant. Of a number it
/// keeps what `serde_json::Number::as_i64` returns.
#[verifier::external_body]
fn from_value(value: serde_json::Value) -> (json: Json)
    ensures
        json@ == value_content(value),
{
    match value {
        serde_json::Value::Null => Json::Null,
        serde_json::Value::Bool(b) => Json::Bool(b),
        serde_json::Value::Number(n) => Json::Number(n.as_i64()),
        serde_json::Value::String(s) => Json::Text(s),
        serde_json::Value::Array(items) => Json::Array(items.into_iter().map(from_value).collect()),
        serde_json::Value::Object(members) => Json::Object(
            members.into_iter().map(|(key, value)| Member { key, value: from_value(value) }).collect(),
        ),
    }
}

/// Parses a JSON text.
///
/// The result is the one that [`json_parse`] names for the text: the value, or the
/// parser's message where the text is not JSON.
pub fn parse_json(text: &str) -> (r: Result<Json, String>)
    ensures
        match r {
            Ok(json) => json_parse(text@) == Ok::<JsonValue, Seq<char>>(json@),
            Err(message) => json_parse(text@) == Err::<JsonValue, Seq<char>>(message@),
        },
{
    match parse_value(text) {
        Ok(value) => Ok(from_value(value)),
        Err(message) => Err(message),
    }
}

} // verus!

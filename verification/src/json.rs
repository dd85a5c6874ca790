//! JSON values as plain data, and the decoding of JSON text.
//!
//! The text is decoded by `serde_json`. What it yields is copied into
//! [`JsonValue`], a tree of plain values, on which the rest of the crate
//! works.

use vstd::prelude::*;

verus! {

/// A JSON value.
///
/// The members of an object are kept in the order in which the decoder
/// hands them out. Of a number only the fact that it is one is kept.
#[derive(Debug, PartialEq, Eq)]
pub enum JsonValue {
    Null,
    Bool(bool),
    Number,
    Text(String),
    Array(Vec<JsonValue>),
    Object(Vec<(String, JsonValue)>),
}

/// The mathematical model of a [`JsonValue`].
pub enum JsonTree {
    Null,
    Bool(bool),
    Number,
    Text(Seq<char>),
    Array(Seq<JsonTree>),
    Object(Seq<(Seq<char>, JsonTree)>),
}

impl View for JsonValue {
    type V = JsonTree;

    open spec fn view(&self) -> JsonTree
        decreases self,
    {
        match self {
            JsonValue::Null => JsonTree::Null,
            JsonValue::Bool(b) => JsonTree::Bool(*b),
            JsonValue::Number => JsonTree::Number,
            JsonValue::Text(s) => JsonTree::Text(s@),
            JsonValue::Array(items) => JsonTree::Array(
                Seq::new(
                    items@.len(),
                    |i: int|
                        if 0 <= i < items@.len() {
                            items@[i].view()
                        } else {
                            JsonTree::Null
                        },
                ),
            ),
            JsonValue::Object(members) => JsonTree::Object(
                Seq::new(
                    members@.len(),
                    |i: int|
                        (
                            members@[i].0@,
                            if 0 <= i < members@.len() {
                                members@[i].1.view()
                            } else {
                                JsonTree::Null
                            },
                        ),
                ),
            ),
        }
    }
}

/// The value decoded by `serde_json`; nothing inside it is visible here.
#[verifier::external_type_specification]
#[verifier::external_body]
pub struct ExValue(serde_json::Value);

/// The error of `serde_json`; nothing inside it is visible here.
#[verifier::external_type_specification]
#[verifier::external_body]
pub struct ExError(serde_json::Error);

/// What `serde_json::from_str` makes of a text: the value it decodes, or
/// `None` where it reports an error.
pub uninterp spec fn parsed_json(text: Seq<char>) -> Option<JsonTree>;

/// What a `serde_json::Value` holds.
pub uninterp spec fn json_shape(value: serde_json::Value) -> JsonTree;

/// The outermost level of a decoded value: which kind it is, and what it
/// holds directly.
enum Layer<'a> {
    Null,
    Bool(bool),
    Number,
    Text(&'a str),
    Array(&'a Vec<serde_json::Value>),
    Object(Vec<(&'a String, &'a serde_json::Value)>),
}

/// What a value holds whose outermost level is `layer`.
spec fn layer_shape(layer: Layer) -> JsonTree {
    match layer {
        Layer::Null => JsonTree::Null,
        Layer::Bool(b) => JsonTree::Bool(b),
        Layer::Number => JsonTree::Number,
        Layer::Text(s) => JsonTree::Text(s@),
        Layer::Array(items) => JsonTree::Array(
            items@.map_values(|v: serde_json::Value| json_shape(v)),
        ),
        Layer::Object(members) => JsonTree::Object(
            members@.map_values(|m: (&String, &serde_json::Value)| (m.0@, json_shape(*m.1))),
        ),
    }
}

/// Calls `serde_json::from_str` for a `serde_json::Value`. The contract
/// gives the outcome its name: the call succeeds exactly where
/// [`parsed_json`] is `Some`, and the value then holds that tree.
#[verifier::external_body]
fn value_from_text(text: &str) -> (r: Result<serde_json::Value, serde_json::Error>)
    ensures
        r matches Ok(v) ==> parsed_json(text@) == Some(json_shape(v)),
        r is Err ==> parsed_json(text@) is None,
{
    serde_json::from_str::<serde_json::Value>(text)
}

/// Tells the variants of `serde_json::Value` apart and hands out what the
/// value holds directly: the text of a string, the items of an array, the
/// members of an object in the order of `serde_json::Map::iter`. The
/// contract says that this is the outermost level of [`json_shape`].
#[verifier::external_body]
fn open_value<'a>(value: &'a serde_json::Value) -> (r: Layer<'a>)
    ensures
        layer_shape(r) == json_shape(*value),
{
    match value {
        serde_json::Value::Null => Layer::Null,
        serde_json::Value::Bool(b) => Layer::Bool(*b),
        serde_json::Value::Number(_) => Layer::Number,
        serde_json::Value::String(s) => Layer::Text(s),
        serde_json::Value::Array(items) => Layer::Array(items),
        serde_json::Value::Object(members) => Layer::Object(members.iter().collect()),
    }
}

/// The message of a `serde_json::Error`, as its `Display` writes it.
/// Nothing is claimed of the text.
#[verifier::external_body]
fn error_text(error: &serde_json::Error) -> String {
    error.to_string()
}

/// Copies a decoded value into a tree of plain values.
fn lift(value: &serde_json::Value) -> (r: JsonValue)
    ensures
        r@ == json_shape(*value),
    decreases json_shape(*value),
{
    match open_value(value) {
        Layer::Null => JsonValue::Null,
        Layer::Bool(b) => JsonValue::Bool(b),
        Layer::Number => JsonValue::Number,
        Layer::Text(s) => JsonValue::Text(s.to_owned()),
        Layer::Array(items) => {
            let ghost shapes = items@.map_values(|v: serde_json::Value| json_shape(v));
            let mut out: Vec<JsonValue> = Vec::new();
            let mut i: usize = 0;
            while i < items.len()
                invariant
                    i <= items.len(),
                    shapes == items@.map_values(|v: serde_json::Value| json_shape(v)),
                    json_shape(*value) == JsonTree::Array(shapes),
                    out@.len() == i,
                    forall|j: int| 0 <= j < i ==> (#[trigger] out@[j])@ == shapes[j],
                decreases items.len() - i,
            {
                assert(shapes[i as int] == json_shape(items@[i as int]));
                assert(decreases_to!(json_shape(*value) => json_shape(*value)->Array_0));
                assert(decreases_to!(shapes => shapes[i as int]));
                let item = lift(&items[i]);
                out.push(item);
                i += 1;
            }
            let r = JsonValue::Array(out);
            assert(r@ =~= JsonTree::Array(shapes)) by {
                assert(r@->Array_0 =~= shapes);
            }
            r
        },
        Layer::Object(members) => {
            let ghost shapes = members@.map_values(
                |m: (&String, &serde_json::Value)| (m.0@, json_shape(*m.1)),
            );
            let mut out: Vec<(String, JsonValue)> = Vec::new();
            let mut i: usize = 0;
            while i < members.len()
                invariant
                    i <= members.len(),
                    shapes == members@.map_values(
                        |m: (&String, &serde_json::Value)| (m.0@, json_shape(*m.1)),
                    ),
                    json_shape(*value) == JsonTree::Object(shapes),
                    out@.len() == i,
                    forall|j: int|
                        0 <= j < i ==> ((#[trigger] out@[j]).0@, out@[j].1@) == shapes[j],
                decreases members.len() - i,
            {
                assert(shapes[i as int] == (
                    members@[i as int].0@,
                    json_shape(*members@[i as int].1),
                ));
                assert(decreases_to!(json_shape(*value) => json_shape(*value)->Object_0));
                assert(decreases_to!(shapes => shapes[i as int]));
                assert(decreases_to!(shapes[i as int] => shapes[i as int].1));
                let name = members[i].0.clone();
                let item = lift(members[i].1);
                out.push((name, item));
                i += 1;
            }
            let r = JsonValue::Object(out);
            assert(r@ =~= JsonTree::Object(shapes)) by {
                assert(r@->Object_0 =~= shapes);
            }
            r
        },
    }
}

/// Decodes a JSON text.
///
/// The result is `Ok` exactly where `serde_json` accepts the text, and
/// then holds the value it decoded; otherwise it carries the decoder's
/// message.
pub fn decode_json(text: &str) -> (r: Result<JsonValue, String>)
    ensures
        r is Ok <==> parsed_json(text@) is Some,
        r matches Ok(doc) ==> parsed_json(text@) == Some(doc@),
{
    match value_from_text(text) {
        Ok(value) => Ok(lift(&value)),
        Err(error) => Err(error_text(&error)),
    }
}

} // verus!

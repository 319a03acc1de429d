//! JSON documents as values of this crate. Reading and writing JSON text is
//! `serde_json`'s work; this module converts between its values and `Json`
//! and names what it returns.

use vstd::prelude::*;
use serde_json::Value;
use crate::error::outcome;
use crate::error::ErrorView;
use crate::error::WalrusError;

verus! {

/// A JSON value.
#[derive(Debug, PartialEq, Eq)]
pub enum Json {
    Null,
    Bool(bool),
    /// A number, as the decimal text that `serde_json` prints for it.
    Number(String),
    Text(String),
    Array(Vec<Json>),
    /// The members of an object. A value that `Json::parse` read holds
    /// them in the order of their names, each name once; a value built by
    /// hand holds them as they were put.
    Object(Vec<(String, Json)>),
}

/// A JSON value as a mathematical value: the view of a `Json`.
pub enum JsonView {
    Null,
    Bool(bool),
    Number(Seq<char>),
    Text(Seq<char>),
    Array(Seq<JsonView>),
    Object(Seq<JsonMember>),
}

/// One member of a JSON object.
pub struct JsonMember {
    pub name: Seq<char>,
    pub value: JsonView,
}

impl View for Json {
    type V = JsonView;

    open spec fn view(&self) -> JsonView
        decreases self,
    {
        match self {
            Json::Null => JsonView::Null,
            Json::Bool(b) => JsonView::Bool(*b),
            Json::Number(text) => JsonView::Number(text@),
            Json::Text(text) => JsonView::Text(text@),
            Json::Array(items) => JsonView::Array(
                Seq::new(
                    items@.len(),
                    |i: int|
                        if 0 <= i < items@.len() {
                            items@[i].view()
                        } else {
                            JsonView::Null
                        },
                ),
            ),
            Json::Object(members) => JsonView::Object(
                Seq::new(
                    members@.len(),
                    |i: int|
                        if 0 <= i < members@.len() {
                            JsonMember { name: members@[i].0@, value: members@[i].1.view() }
                        } else {
                            JsonMember { name: Seq::empty(), value: JsonView::Null }
                        },
                ),
            ),
        }
    }
}

/// The members of an object, each taken by its view.
pub open spec fn member_views(members: Seq<(String, Json)>) -> Seq<JsonMember> {
    Seq::new(members.len(), |i: int| JsonMember { name: members[i].0@, value: members[i].1@ })
}

/// The items of an array, each taken by its view.
pub open spec fn item_views(items: Seq<Json>) -> Seq<JsonView> {
    Seq::new(items.len(), |i: int| items[i]@)
}

/// The view of an object is made of the views of its members.
pub proof fn lemma_object_view(members: Vec<(String, Json)>)
    ensures
        Json::Object(members)@ == JsonView::Object(member_views(members@)),
{
    assert(Json::Object(members)@->Object_0 =~= member_views(members@));
}

/// The view of an array is made of the views of its items.
pub proof fn lemma_array_view(items: Vec<Json>)
    ensures
        Json::Array(items)@ == JsonView::Array(item_views(items@)),
{
    assert(Json::Array(items)@->Array_0 =~= item_views(items@));
}

/// `serde_json`'s own value, which reading and writing pass through.
#[verifier::external_type_specification]
#[verifier::external_body]
pub struct ExValue(serde_json::Value);

/// `serde_json`'s error, of which only the words are kept.
#[verifier::external_type_specification]
#[verifier::external_body]
pub struct ExJsonError(serde_json::Error);

/// What `serde_json::from_slice` reads from `bytes` as one JSON value: the
/// document, or the words of the error.
pub uninterp spec fn json_parse(bytes: Seq<u8>) -> Result<JsonView, Seq<char>>;

/// What `serde_json::to_string` writes for `json`: the text, or the words
/// of the error (a number whose text is no JSON number cannot be written).
pub uninterp spec fn json_text(json: JsonView) -> Result<Seq<char>, Seq<char>>;

/// The conversion that `parse_json` applies to what was read: turns a
/// `serde_json::Value` into a `Json`, variant by variant. A number is kept
/// as the text that its `Display` prints; the members of an object come in
/// the order in which the map hands them out, which is that of their
/// names. Nothing is claimed of it by
/// itself.
#[verifier::external_body]
fn json_from_value(value: Value) -> Json {
    match value {
        Value::Null => Json::Null,
        Value::Bool(b) => Json::Bool(b),
        Value::Number(n) => Json::Number(n.to_string()),
        Value::String(s) => Json::Text(s),
        Value::Array(items) => Json::Array(items.into_iter().map(json_from_value).collect()),
        Value::Object(map) => Json::Object(
            map.into_iter().map(|(k, v)| (k, json_from_value(v))).collect(),
        ),
    }
}

/// The conversion that `render_json` applies to what is to be written:
/// turns a `Json` into a `serde_json::Value`, variant by variant. The text
/// of a number is read back with `serde_json::from_str`, whose error is
/// handed on; the members of an object are collected into a map, in which
/// a later member replaces an earlier one of the same name. Nothing is
/// claimed of it by itself.
#[verifier::external_body]
fn value_from_json(json: &Json) -> Result<Value, serde_json::Error> {
    match json {
        Json::Null => Ok(Value::Null),
        Json::Bool(b) => Ok(Value::Bool(*b)),
        Json::Number(text) => serde_json::from_str(text).map(Value::Number),
        Json::Text(s) => Ok(Value::String(s.clone())),
        Json::Array(items) => items.iter().map(value_from_json).collect::<Result<_, _>>().map(
            Value::Array,
        ),
        Json::Object(members) => members.iter().map(
            |(k, v)| value_from_json(v).map(|value| (k.clone(), value)),
        ).collect::<Result<_, _>>().map(Value::Object),
    }
}

/// Reads `bytes` with `serde_json::from_slice` as one JSON value and
/// converts it. The outcome is the one named `json_parse`.
#[verifier::external_body]
pub(crate) fn parse_json(bytes: &[u8]) -> (r: Result<Json, String>)
    ensures
        outcome(r) == json_parse(bytes@),
{
    match serde_json::from_slice::<Value>(bytes) {
        Ok(value) => Ok(json_from_value(value)),
        Err(e) => Err(e.to_string()),
    }
}

/// Converts `json` and writes it with `serde_json::to_string`. The outcome
/// is the one named `json_text`.
#[verifier::external_body]
pub(crate) fn render_json(json: &Json) -> (r: Result<String, String>)
    ensures
        outcome(r) == json_text(json@),
{
    match value_from_json(json).and_then(|value| serde_json::to_string(&value)) {
        Ok(text) => Ok(text),
        Err(e) => Err(e.to_string()),
    }
}

impl Json {
    /// Reads one JSON value from `bytes`. Where they hold none, the error
    /// is a `ParseError` with the words of the refusal. The members of an
    /// object come out in the order of their names, not in that of the
    /// text; where the text gives a name twice, the member holds the value
    /// given last.
    pub fn parse(bytes: &[u8]) -> (r: Result<Json, WalrusError>)
        ensures
            match json_parse(bytes@) {
                Ok(json) => outcome(r) == Ok::<JsonView, ErrorView>(json),
                Err(words) => outcome(r) == Err::<JsonView, ErrorView>(
                    ErrorView::ParseError(words),
                ),
            },
    {
        match parse_json(bytes) {
            Ok(json) => Ok(json),
            Err(words) => Err(WalrusError::ParseError(words)),
        }
    }

    /// Writes the value as JSON text. Where it cannot be written, the
    /// error is an `EncodeError` with the words of the refusal. The members
    /// of an object are written in the order of their names, whatever
    /// their order in the value; of members with the same name only the
    /// last is written.
    pub fn to_text(&self) -> (r: Result<String, WalrusError>)
        ensures
            match json_text(self@) {
                Ok(text) => outcome(r) == Ok::<Seq<char>, ErrorView>(text),
                Err(words) => outcome(r) == Err::<Seq<char>, ErrorView>(
                    ErrorView::EncodeError(words),
                ),
            },
    {
        match render_json(self) {
            Ok(text) => Ok(text),
            Err(words) => Err(WalrusError::EncodeError(words)),
        }
    }
}

} // verus!

//! The JSON side of the bridge: a mathematical model of `serde_json::Value`, and the calls that
//! build and take apart such values.

use vstd::prelude::*;
use serde::de::DeserializeOwned;
use serde_json::Value as Json;
use crate::entries::{distinct_keys, entries_map};
use crate::number::{number_view, NumberView};

verus! {

/// `serde_json::Value`, carried as an opaque value. This library calls it `Json`, to keep it
/// apart from its own `Value`.
#[verifier::external_type_specification]
#[verifier::external_body]
pub struct ExJson(Json);

/// `serde_json::Error`, carried as an opaque value.
#[verifier::external_type_specification]
#[verifier::external_body]
pub struct ExDecodeError(serde_json::Error);

/// A JSON document as a mathematical value.
pub enum JsonView {
    Null,
    Bool(bool),
    Number(NumberView),
    String(Seq<char>),
    Array(Seq<JsonView>),
    Object(Map<Seq<char>, JsonView>),
}

/// What a `serde_json::Value` holds: its kind and, inside, the boolean, the number (as
/// `number_view` has it), the characters of the string, the views of the array's members in
/// order, or the map from each key of the object to the view of its value.
pub uninterp spec fn json_view(j: Json) -> JsonView;

/// The views of a sequence of JSON values.
pub open spec fn json_views(s: Seq<Json>) -> Seq<JsonView> {
    Seq::new(s.len(), |i: int| json_view(s[i]))
}

/// The keys and views of a sequence of owned members.
pub open spec fn json_members(s: Seq<(String, Json)>) -> Seq<(Seq<char>, JsonView)> {
    Seq::new(s.len(), |i: int| (s[i].0@, json_view(s[i].1)))
}

/// The keys and views of a sequence of borrowed members.
pub open spec fn json_member_refs(s: Seq<(&String, &Json)>) -> Seq<(Seq<char>, JsonView)> {
    Seq::new(s.len(), |i: int| (s[i].0@, json_view(*s[i].1)))
}

/// One level of a JSON value: which kind it is, and references to what it holds.
pub enum JsonNode<'a> {
    Null,
    Bool(bool),
    Number(&'a serde_json::Number),
    String(&'a String),
    Array(&'a Vec<Json>),
    Object(Vec<(&'a String, &'a Json)>),
}

impl<'a> JsonNode<'a> {
    /// The JSON value that a node is one level of.
    pub open spec fn view(&self) -> JsonView {
        match self {
            JsonNode::Null => JsonView::Null,
            JsonNode::Bool(b) => JsonView::Bool(*b),
            JsonNode::Number(n) => JsonView::Number(number_view(**n)),
            JsonNode::String(s) => JsonView::String(s@),
            JsonNode::Array(items) => JsonView::Array(json_views(items@)),
            JsonNode::Object(members) => JsonView::Object(
                entries_map(json_member_refs(members@)),
            ),
        }
    }

    /// An object's members come with distinct keys.
    pub open spec fn wf(&self) -> bool {
        self matches JsonNode::Object(members) ==> distinct_keys(json_member_refs(members@))
    }
}

/// The variant `Null` of `serde_json::Value`.
#[verifier::external_body]
pub(crate) fn json_null() -> (r: Json)
    ensures
        json_view(r) == JsonView::Null,
{
    Json::Null
}

/// The variant `Bool` of `serde_json::Value`, around what is given.
#[verifier::external_body]
pub(crate) fn json_bool(b: bool) -> (r: Json)
    ensures
        json_view(r) == JsonView::Bool(b),
{
    Json::Bool(b)
}

/// The variant `Number` of `serde_json::Value`, around what is given.
#[verifier::external_body]
pub(crate) fn json_number(n: serde_json::Number) -> (r: Json)
    ensures
        json_view(r) == JsonView::Number(number_view(n)),
{
    Json::Number(n)
}

/// The variant `String` of `serde_json::Value`, around what is given.
#[verifier::external_body]
pub(crate) fn json_string(s: String) -> (r: Json)
    ensures
        json_view(r) == JsonView::String(s@),
{
    Json::String(s)
}

/// The variant `Array` of `serde_json::Value`: the array holds the given values in the given
/// order.
#[verifier::external_body]
pub(crate) fn json_array(items: Vec<Json>) -> (r: Json)
    ensures
        json_view(r) == JsonView::Array(json_views(items@)),
{
    Json::Array(items)
}

/// The variant `Object` of `serde_json::Value`, around a `serde_json::Map` collected from the
/// given members. With no key given twice, the object maps each key to the value given with it
/// and has no other key.
#[verifier::external_body]
pub(crate) fn json_object(members: Vec<(String, Json)>) -> (r: Json)
    requires
        distinct_keys(json_members(members@)),
    ensures
        json_view(r) == JsonView::Object(entries_map(json_members(members@))),
{
    Json::Object(members.into_iter().collect())
}

/// A match on the variants of `serde_json::Value`, handing out a reference to what each
/// holds; for an object, the members that `serde_json::Map::iter` yields. A map holds each key
/// once, so the members come with distinct keys, and they are all that the object holds.
#[verifier::external_body]
pub(crate) fn json_open<'a>(j: &'a Json) -> (node: JsonNode<'a>)
    ensures
        node@ == json_view(*j),
        node.wf(),
{
    match j {
        Json::Null => JsonNode::Null,
        Json::Bool(b) => JsonNode::Bool(*b),
        Json::Number(n) => JsonNode::Number(n),
        Json::String(s) => JsonNode::String(s),
        Json::Array(items) => JsonNode::Array(items),
        Json::Object(map) => JsonNode::Object(map.iter().collect()),
    }
}

/// `serde_json::from_value`: hands the JSON document to the `Deserialize` impl of `T`. What
/// comes back is up to that impl, so nothing is claimed of it.
#[verifier::external_body]
pub(crate) fn decode<T: DeserializeOwned>(json: Json) -> (r: Result<T, serde_json::Error>) {
    serde_json::from_value(json)
}

/// Whether `answer` is something that `decode` may return for the document `json`: what
/// `T`'s decoder makes of it. This is a relation, not a function, and nothing more is known of
/// it: a decoder is free in what it accepts, and nothing says that it answers the same way
/// twice.
pub open(crate) spec fn decodes_to<T: DeserializeOwned>(
    json: Json,
    answer: Result<T, serde_json::Error>,
) -> bool {
    call_ensures(decode::<T>, (json,), answer)
}

} // verus!

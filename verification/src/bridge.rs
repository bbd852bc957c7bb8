//! The bridge between values and JSON.
//!
//! Each kind of value has one JSON construct that stands for it, and each JSON construct one
//! kind of value, so that a value can be carried as JSON and read back unchanged.

use vstd::prelude::*;
use serde_json::Value as Json;
use crate::entries::{
    distinct_keys, entries_map, lemma_entries_map_at, lemma_entries_map_len,
    lemma_entries_map_same_keys,
};
use crate::json::{
    json_array, json_bool, json_member_refs, json_members, json_null, json_number, json_object,
    json_open, json_string, json_view, json_views, JsonNode, JsonView,
};
use crate::number::number_clone;
use crate::object::Object;
use crate::value::{value_pairs, value_views, Value, ValueView};

verus! {

/// The JSON form of a value: null for null, a boolean for a boolean, a number for a number, a
/// string for a string, an array of the members' forms for a list, and for an object the
/// object with the same keys and the form of each value under its key.
pub open spec fn json_of(v: ValueView) -> JsonView
    decreases v,
{
    match v {
        ValueView::Null => JsonView::Null,
        ValueView::Boolean(b) => JsonView::Bool(b),
        ValueView::Number(n) => JsonView::Number(n),
        ValueView::String(s) => JsonView::String(s),
        ValueView::List(items) => JsonView::Array(
            Seq::new(
                items.len(),
                |i: int|
                    if 0 <= i < items.len() {
                        json_of(items[i])
                    } else {
                        JsonView::Null
                    },
            ),
        ),
        ValueView::Object(members) => JsonView::Object(
            Map::new(
                |k: Seq<char>| members.dom().contains(k),
                |k: Seq<char>|
                    if members.dom().contains(k) {
                        json_of(members[k])
                    } else {
                        JsonView::Null
                    },
            ),
        ),
    }
}

/// The value that a JSON document stands for: the inverse reading of `json_of`.
pub open spec fn value_of(j: JsonView) -> ValueView
    decreases j,
{
    match j {
        JsonView::Null => ValueView::Null,
        JsonView::Bool(b) => ValueView::Boolean(b),
        JsonView::Number(n) => ValueView::Number(n),
        JsonView::String(s) => ValueView::String(s),
        JsonView::Array(items) => ValueView::List(
            Seq::new(
                items.len(),
                |i: int|
                    if 0 <= i < items.len() {
                        value_of(items[i])
                    } else {
                        ValueView::Null
                    },
            ),
        ),
        JsonView::Object(members) => ValueView::Object(
            Map::new(
                |k: Seq<char>| members.dom().contains(k),
                |k: Seq<char>|
                    if members.dom().contains(k) {
                        value_of(members[k])
                    } else {
                        ValueView::Null
                    },
            ),
        ),
    }
}

/// Carrying a value as JSON and reading the JSON back gives the value again, for every kind
/// of value and at every depth.
pub proof fn lemma_json_round_trip(v: ValueView)
    ensures
        value_of(json_of(v)) == v,
    decreases v,
{
    match v {
        ValueView::List(items) => {
            let back = value_of(json_of(v))->List_0;
            assert forall|i: int| 0 <= i < items.len() implies back[i] == items[i] by {
                lemma_json_round_trip(items[i]);
            }
            assert(back =~= items);
        },
        ValueView::Object(members) => {
            let back = value_of(json_of(v))->Object_0;
            assert forall|k: Seq<char>| members.dom().contains(k) implies back[k]
                == members[k] by {
                lemma_json_round_trip(members[k]);
            }
            assert(back =~= members);
        },
        _ => {},
    }
}

/// Reading a JSON document as a value and carrying that value as JSON gives the document
/// again.
pub proof fn lemma_value_round_trip(j: JsonView)
    ensures
        json_of(value_of(j)) == j,
    decreases j,
{
    match j {
        JsonView::Array(items) => {
            let back = json_of(value_of(j))->Array_0;
            assert forall|i: int| 0 <= i < items.len() implies back[i] == items[i] by {
                lemma_value_round_trip(items[i]);
            }
            assert(back =~= items);
        },
        JsonView::Object(members) => {
            let back = json_of(value_of(j))->Object_0;
            assert forall|k: Seq<char>| members.dom().contains(k) implies back[k]
                == members[k] by {
                lemma_value_round_trip(members[k]);
            }
            assert(back =~= members);
        },
        _ => {},
    }
}

impl Value {
    /// The JSON form of the value. Every kind of value has one, so this cannot fail.
    pub fn to_json(&self) -> (r: Json)
        ensures
            json_view(r) == json_of(self@),
        decreases self,
    {
        match self {
            Value::Null => json_null(),
            Value::Boolean(b) => json_bool(*b),
            Value::Number(n) => json_number(number_clone(n)),
            Value::String(s) => json_string(s.clone()),
            Value::List(items) => {
                let mut out: Vec<Json> = Vec::new();
                let mut i: usize = 0;
                while i < items.len()
                    invariant
                        i <= items.len(),
                        *self == Value::List(*items),
                        out.len() == i,
                        forall|j: int| 0 <= j < i ==> json_view(out[j]) == json_of(items[j]@),
                    decreases items.len() - i,
                {
                    assert(self->List_0[i as int] == items[i as int]);
                    let member = items[i].to_json();
                    out.push(member);
                    i += 1;
                }
                assert(json_views(out@) =~= json_of(self@)->Array_0);
                json_array(out)
            },
            Value::Object(object) => {
                let entries = object.members();
                let mut out: Vec<(String, Json)> = Vec::new();
                let mut i: usize = 0;
                while i < entries.len()
                    invariant
                        i <= entries.len(),
                        *self == Value::Object(*object),
                        *entries == object.entries,
                        out.len() == i,
                        forall|j: int|
                            0 <= j < i ==> out[j].0@ == entries[j].0@ && json_view(out[j].1)
                                == json_of(entries[j].1@),
                    decreases entries.len() - i,
                {
                    let key = entries[i].0.clone();
                    assert(self->Object_0.entries[i as int] == entries[i as int]);
                    let member = entries[i].1.to_json();
                    out.push((key, member));
                    i += 1;
                }
                proof {
                    let pairs = value_pairs(entries@);
                    let made = json_members(out@);
                    lemma_entries_map_same_keys(pairs, made);
                    assert(entries_map(made) =~= json_of(self@)->Object_0);
                }
                json_object(out)
            },
        }
    }

    /// The value that a JSON document stands for. Every JSON construct stands for one kind of
    /// value, so this cannot fail.
    pub fn from_json(json: &Json) -> (r: Value)
        ensures
            r@ == value_of(json_view(*json)),
        decreases json_view(*json),
    {
        match json_open(json) {
            JsonNode::Null => Value::Null,
            JsonNode::Bool(b) => Value::Boolean(b),
            JsonNode::Number(n) => Value::Number(number_clone(n)),
            JsonNode::String(s) => Value::String(s.clone()),
            JsonNode::Array(items) => {
                let mut out: Vec<Value> = Vec::new();
                let mut i: usize = 0;
                while i < items.len()
                    invariant
                        i <= items.len(),
                        json_view(*json) == JsonView::Array(json_views(items@)),
                        out.len() == i,
                        forall|j: int| 0 <= j < i ==> out[j]@ == value_of(json_view(items[j])),
                    decreases items.len() - i,
                {
                    assert(json_view(*json)->Array_0[i as int] == json_view(items[i as int]));
                    let member = Value::from_json(&items[i]);
                    out.push(member);
                    i += 1;
                }
                assert(value_views(out@) =~= value_of(json_view(*json))->List_0);
                Value::List(out)
            },
            JsonNode::Object(members) => {
                let ghost refs = json_member_refs(members@);
                let mut out: Vec<(String, Value)> = Vec::new();
                let mut i: usize = 0;
                while i < members.len()
                    invariant
                        i <= members.len(),
                        refs == json_member_refs(members@),
                        distinct_keys(refs),
                        json_view(*json) == JsonView::Object(entries_map(refs)),
                        out.len() == i,
                        forall|j: int|
                            0 <= j < i ==> out[j].0@ == members[j].0@ && out[j].1@ == value_of(
                                json_view(*members[j].1),
                            ),
                    decreases members.len() - i,
                {
                    proof {
                        lemma_entries_map_len(refs);
                        lemma_entries_map_at(refs, i as int);
                        assert(json_view(*json)->Object_0[refs[i as int].0] == json_view(
                            *members[i as int].1,
                        ));
                    }
                    let key = members[i].0.clone();
                    let member = Value::from_json(members[i].1);
                    out.push((key, member));
                    i += 1;
                }
                proof {
                    let made = value_pairs(out@);
                    lemma_entries_map_same_keys(refs, made);
                    assert(entries_map(made) =~= value_of(json_view(*json))->Object_0);
                }
                Value::Object(Object::from_entries(out))
            },
        }
    }
}

} // verus!

//! The dynamic value: every value that a query can carry.

use vstd::prelude::*;
use crate::number::{number_clone, number_view, NumberView};
use crate::object::Object;

verus! {

/// A value as a mathematical object: what a `Value` means, whatever way it is stored.
pub enum ValueView {
    Null,
    Boolean(bool),
    Number(NumberView),
    String(Seq<char>),
    List(Seq<ValueView>),
    Object(Map<Seq<char>, ValueView>),
}

/// A value of the closed set: null, a boolean, a number, a string, an ordered list of values,
/// or an object that maps each of its keys to a value.
#[derive(Debug)]
pub enum Value {
    Null,
    Boolean(bool),
    Number(serde_json::Number),
    String(String),
    List(Vec<Value>),
    Object(Object),
}

/// The views of a row of values, in order.
pub open spec fn value_views(s: Seq<Value>) -> Seq<ValueView>
    decreases s, 0int,
{
    Seq::new(
        s.len(),
        |i: int|
            if 0 <= i < s.len() {
                s[i]@
            } else {
                ValueView::Null
            },
    )
}

/// The keys and views of a row of members, in order.
pub open spec fn value_pairs(s: Seq<(String, Value)>) -> Seq<(Seq<char>, ValueView)>
    decreases s, 0int,
{
    Seq::new(
        s.len(),
        |i: int|
            if 0 <= i < s.len() {
                (s[i].0@, s[i].1@)
            } else {
                (Seq::empty(), ValueView::Null)
            },
    )
}

impl View for Value {
    type V = ValueView;

    /// What the value means: its kind and, inside, the boolean, the number, the characters of
    /// the string, the meanings of the list's members in order, or the object's map.
    open spec fn view(&self) -> ValueView
        decreases self, 0int,
    {
        match self {
            Value::Null => ValueView::Null,
            Value::Boolean(b) => ValueView::Boolean(*b),
            Value::Number(n) => ValueView::Number(number_view(*n)),
            Value::String(s) => ValueView::String(s@),
            Value::List(items) => ValueView::List(value_views(items@)),
            Value::Object(object) => ValueView::Object(object@),
        }
    }
}

/// A deep copy of a row of values.
pub(crate) fn clone_values(items: &Vec<Value>) -> (r: Vec<Value>)
    ensures
        value_views(r@) == value_views(items@),
    decreases items,
{
    let mut r: Vec<Value> = Vec::new();
    let mut i: usize = 0;
    while i < items.len()
        invariant
            i <= items.len(),
            r.len() == i,
            forall|j: int| 0 <= j < i ==> r[j]@ == items[j]@,
        decreases items.len() - i,
    {
        let item = items[i].clone();
        r.push(item);
        i += 1;
    }
    r
}

impl Clone for Value {
    /// A deep copy: a value that means the same and shares nothing with `self`.
    fn clone(&self) -> (r: Value)
        ensures
            r@ == self@,
        decreases self,
    {
        match self {
            Value::Null => Value::Null,
            Value::Boolean(b) => Value::Boolean(*b),
            Value::Number(n) => Value::Number(number_clone(n)),
            Value::String(s) => Value::String(s.clone()),
            Value::List(items) => Value::List(clone_values(items)),
            Value::Object(object) => Value::Object(object.clone()),
        }
    }
}

impl From<bool> for Value {
    fn from(b: bool) -> (r: Value) {
        Value::Boolean(b)
    }
}

impl vstd::std_specs::convert::FromSpecImpl<bool> for Value {
    open spec fn obeys_from_spec() -> bool {
        true
    }

    open spec fn from_spec(b: bool) -> Value {
        Value::Boolean(b)
    }
}

impl From<serde_json::Number> for Value {
    fn from(n: serde_json::Number) -> (r: Value) {
        Value::Number(n)
    }
}

impl vstd::std_specs::convert::FromSpecImpl<serde_json::Number> for Value {
    open spec fn obeys_from_spec() -> bool {
        true
    }

    open spec fn from_spec(n: serde_json::Number) -> Value {
        Value::Number(n)
    }
}

impl From<String> for Value {
    fn from(s: String) -> (r: Value) {
        Value::String(s)
    }
}

impl vstd::std_specs::convert::FromSpecImpl<String> for Value {
    open spec fn obeys_from_spec() -> bool {
        true
    }

    open spec fn from_spec(s: String) -> Value {
        Value::String(s)
    }
}

impl From<Vec<Value>> for Value {
    fn from(items: Vec<Value>) -> (r: Value) {
        Value::List(items)
    }
}

impl vstd::std_specs::convert::FromSpecImpl<Vec<Value>> for Value {
    open spec fn obeys_from_spec() -> bool {
        true
    }

    open spec fn from_spec(items: Vec<Value>) -> Value {
        Value::List(items)
    }
}

impl From<Object> for Value {
    fn from(object: Object) -> (r: Value) {
        Value::Object(object)
    }
}

impl vstd::std_specs::convert::FromSpecImpl<Object> for Value {
    open spec fn obeys_from_spec() -> bool {
        true
    }

    open spec fn from_spec(object: Object) -> Value {
        Value::Object(object)
    }
}

} // verus!

//! The opaque scalar: a scalar type that takes any value as it is.

use vstd::prelude::*;
use vstd::std_specs::convert::{FromSpec, IntoSpec};
use serde::de::DeserializeOwned;
use crate::error::{projected, ParseError, ProjectionError};
use crate::bridge::json_of;
use crate::error::projection_of;
use crate::json::{decode, decodes_to, json_view};
use crate::value::{Value, ValueView};

verus! {

/// A scalar that wraps one value and asks nothing of it. It carries data whose shape the
/// schema does not know; whoever reads the data checks its shape, with `parse_value`.
#[derive(Debug)]
pub struct Any(pub Value);

impl View for Any {
    type V = ValueView;

    open spec fn view(&self) -> ValueView {
        self.0@
    }
}

impl Any {
    /// What `parse` returns: the scalar around the value, whatever the value is.
    pub open spec fn parsed(value: Value) -> Result<Any, ParseError> {
        Ok(Any(value))
    }

    /// Takes a value as an instance of this scalar. Every value is one, so this never fails,
    /// and the value is kept unchanged.
    pub fn parse(value: Value) -> (r: Result<Any, ParseError>)
        ensures
            r == Any::parsed(value),
    {
        Ok(Any(value))
    }

    /// Whether a value is an instance of this scalar: always.
    pub fn is_valid(value: &Value) -> (r: bool)
        ensures
            r,
    {
        true
    }

    /// A copy of the wrapped value.
    pub fn to_value(&self) -> (r: Value)
        ensures
            r@ == self@,
    {
        self.0.clone()
    }

    /// Reads the wrapped value as a `T`: the value's JSON form, as `Value::to_json` gives it,
    /// is handed to `T`'s decoder, and `projected` of the decoder's answer is returned: the
    /// decoded `T`, or the decoder's complaint. Making the JSON form cannot fail, so every
    /// failure is a complaint of the decoder.
    pub fn parse_value<T: DeserializeOwned>(&self) -> (r: Result<T, ProjectionError>)
        ensures
            exists|json: serde_json::Value, answer: Result<T, serde_json::Error>|
                json_view(json) == json_of(self@) && #[trigger] decodes_to(json, answer)
                    && projection_of(answer, r),
    {
        let json = self.0.to_json();
        let ghost document = json;
        let answer = decode::<T>(json);
        assert(decodes_to(document, answer));
        projected(answer)
    }
}

impl Clone for Any {
    fn clone(&self) -> (r: Any)
        ensures
            r@ == self@,
    {
        Any(self.0.clone())
    }
}

impl PartialEq for Any {
    fn eq(&self, other: &Any) -> (r: bool) {
        self.0 == other.0
    }
}

impl vstd::std_specs::cmp::PartialEqSpecImpl for Any {
    open spec fn obeys_eq_spec() -> bool {
        true
    }

    /// Two scalars are equal when the values that they wrap are.
    open spec fn eq_spec(&self, other: &Any) -> bool {
        self@ == other@
    }
}

impl<T: Into<Value>> From<T> for Any {
    fn from(value: T) -> (r: Any) {
        Any(value.into())
    }
}

impl<T: Into<Value>> vstd::std_specs::convert::FromSpecImpl<T> for Any {
    open spec fn obeys_from_spec() -> bool {
        <T as IntoSpec<Value>>::obeys_into_spec()
    }

    /// The scalar around the value that the source converts into.
    open spec fn from_spec(value: T) -> Any {
        Any(value.into_spec())
    }
}

/// Parsing keeps what it is given: the scalar parsed from a value wraps a value that means
/// the same, so the value that `to_value` then returns is equal to the one parsed.
pub proof fn lemma_parse_keeps_value(value: Value)
    ensures
        Any::parsed(value) is Ok,
        Any::parsed(value)->Ok_0@ == value@,
{
}

/// Lifting a source into the scalar wraps what the source converts into: for every source type
/// whose conversion into a value has a stated result, `Any::from(source)` holds the value
/// `Value::from(source)`, and `to_value` returns an equal one.
pub proof fn lemma_lift_wraps_conversion<T: Into<Value>>(source: T)
    requires
        <T as IntoSpec<Value>>::obeys_into_spec(),
    ensures
        <Any as FromSpec<T>>::obeys_from_spec(),
        <Any as FromSpec<T>>::from_spec(source)@ == <T as IntoSpec<Value>>::into_spec(source)@,
{
}

} // verus!

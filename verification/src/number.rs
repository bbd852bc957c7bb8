//! JSON numbers.
//!
//! A number is kept as a `serde_json::Number`, which holds an integer or a finite float. This
//! library carries numbers through and compares them; it never looks inside one.

use vstd::prelude::*;

verus! {

/// `serde_json::Number`, carried as an opaque value.
#[verifier::external_type_specification]
#[verifier::external_body]
pub struct ExNumber(serde_json::Number);

/// What a number denotes, as far as `==` on `serde_json::Number` can tell. Numbers are told
/// apart, never read, so a `NumberView` is a bare token: all that matters is whether two of
/// them are the same.
pub struct NumberView {
    pub token: int,
}

/// The denotation of a number: two numbers have the same denotation exactly when
/// `serde_json` calls them equal.
pub uninterp spec fn number_view(n: serde_json::Number) -> NumberView;

/// `PartialEq::eq` of `serde_json::Number`. That comparison is an equivalence relation (an
/// integer equals only the same integer, a float only a float of the same value), and
/// `number_view` names its classes.
#[verifier::external_body]
pub(crate) fn number_eq(a: &serde_json::Number, b: &serde_json::Number) -> (r: bool)
    ensures
        r == (number_view(*a) == number_view(*b)),
{
    a == b
}

/// `Clone::clone` of `serde_json::Number`: the copy holds what the number holds, so it
/// denotes the same number.
#[verifier::external_body]
pub(crate) fn number_clone(n: &serde_json::Number) -> (r: serde_json::Number)
    ensures
        number_view(r) == number_view(*n),
{
    n.clone()
}

} // verus!

//! Dynamic values for a query engine, and the opaque scalar that carries any of them.
//!
//! A [`Value`] is one of a closed set of kinds: null, a boolean, a number, a string, a list or
//! an object. [`Any`] is the scalar type that takes every value as it is and offers, through
//! JSON, a way to read the value as a static type when its shape is finally known.

pub mod bridge;
pub mod entries;
pub mod equality;
pub mod error;
pub mod json;
pub mod number;
pub mod object;
pub mod scalar;
pub mod value;

pub use error::{ParseError, ProjectionError};
pub use object::Object;
pub use scalar::Any;
pub use value::{Value, ValueView};

//! The errors of a scalar type.

use vstd::prelude::*;
use vstd::string::to_string_from_display_ensures;

verus! {

/// Why a scalar type rejected a value. Kept for scalar types that reject input; the opaque
/// scalar never makes one.
#[derive(Debug, PartialEq, Eq)]
pub struct ParseError {
    pub message: String,
}

/// Why a value could not be read as the type that the caller asked for.
#[derive(Debug, PartialEq, Eq)]
pub struct ProjectionError {
    /// What the decoder said: what it expected and what it found.
    pub message: String,
}

impl ProjectionError {
    /// The error that reports what the decoder said.
    pub fn new(error: &serde_json::Error) -> (r: ProjectionError)
        ensures
            to_string_from_display_ensures(error, r.message),
    {
        ProjectionError { message: error.to_string() }
    }
}

/// Whether `r` is what a projection returns for what the decoder returned: the decoded value
/// as it is, or an error that reports what the decoder said.
pub open spec fn projection_of<T>(
    decoded: Result<T, serde_json::Error>,
    r: Result<T, ProjectionError>,
) -> bool {
    match decoded {
        Ok(t) => r == Ok::<T, ProjectionError>(t),
        Err(e) => r is Err && to_string_from_display_ensures(&e, r->Err_0.message),
    }
}

/// What a projection returns for what the decoder returned: the decoded value as it is, or
/// the decoder's complaint as a `ProjectionError`.
pub fn projected<T>(decoded: Result<T, serde_json::Error>) -> (r: Result<T, ProjectionError>)
    ensures
        projection_of(decoded, r),
{
    match decoded {
        Ok(t) => Ok(t),
        Err(e) => Err(ProjectionError::new(&e)),
    }
}

} // verus!

//! Errors and error bodies shared by the API parts.
use vstd::prelude::*;

verus! {

/// A value that a constructor refused.
#[derive(Debug, Clone)]
pub struct ValidationError<T> {
    /// The name of the type that refused the value.
    pub type_label: String,
    /// Why it was refused.
    pub reason: String,
    /// The refused value.
    pub value: T,
}

/// The result of a validating constructor.
pub type ValidationResult<T, S> = Result<T, ValidationError<S>>;

/// The error response of an API call.
#[derive(Debug, Clone)]
pub struct ErrorResponse {
    /// The error itself.
    pub error: ApiErrorBody,
}

/// The body of an API error.
#[derive(Debug, Clone)]
pub struct ApiErrorBody {
    /// A machine-readable error code.
    pub code: Option<String>,
    /// A human-readable message.
    pub message: String,
    /// The request parameter at fault.
    pub param: Option<String>,
    /// The kind of error.
    pub _type: String,
}

} // verus!

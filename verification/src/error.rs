//! The errors of argument extraction and of sending.

use vstd::prelude::*;

use crate::callback::IntoErrorResponse;
use crate::types::ErrorResponse;
use crate::value::Value;

verus! {

/// What can go wrong while serving a call.
#[derive(Debug, Clone, PartialEq, Eq)]
pub enum Error {
    /// The parameters hold no further argument.
    ArgumentNotFound,
    /// A value cannot stand as request parameters.
    InvalidArgumentType,
    /// The connection is gone.
    SocketClosed,
    /// JSON could not be read or written; holds the reader's or writer's
    /// account of the failure.
    Serde(String),
}

impl IntoErrorResponse for Error {
    /// Missing or ill-typed arguments are invalid params, a JSON failure is a
    /// parse error that carries the failure's text, anything else is an
    /// internal error.
    fn into_error_response(self) -> (r: ErrorResponse)
        ensures
            match self {
                Error::ArgumentNotFound => error_is_params(r),
                Error::InvalidArgumentType => error_is_params(r),
                Error::SocketClosed => crate::types::error_is(
                    r,
                    crate::types::INTERNAL_ERROR_CODE,
                    "Internal error"@,
                    Value::Null,
                ),
                Error::Serde(text) => {
                    &&& r.code == crate::types::PARSE_ERROR_CODE
                    &&& r.message@ == "Failed to parse JSON"@
                    &&& r.data == Value::String(text)
                },
            },
    {
        match self {
            Error::ArgumentNotFound => ErrorResponse::invalid_params(Value::Null),
            Error::InvalidArgumentType => ErrorResponse::invalid_params(Value::Null),
            Error::Serde(text) => ErrorResponse::parse_error(Value::String(text)),
            _ => ErrorResponse::internal_error(Value::Null),
        }
    }
}

/// `r` is the invalid-params error with no data.
pub open spec fn error_is_params(r: ErrorResponse) -> bool {
    crate::types::error_is(r, crate::types::INVALID_PARAMS_CODE, "Invalid params"@, Value::Null)
}

} // verus!

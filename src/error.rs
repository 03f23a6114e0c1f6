//! The closed set of ways in which a lookup can fail.

use vstd::prelude::*;

use crate::response::IsEvenApiErrorResponse;

verus! {

/// The transport's error: a request that could not be sent, or a body that did not decode.
#[verifier::external_type_specification]
#[verifier::external_body]
pub struct ExReqwestError(reqwest::Error);

/// An error that a lookup can end in.
#[derive(Debug)]
pub enum IsEvenApiError {
    /// The number is outside the range that the service accepts.
    NumberOutOfRange(IsEvenApiErrorResponse),
    /// The input is not a number.
    InvalidNumber(IsEvenApiErrorResponse),
    /// Any other error answer, with the HTTP status code it came with.
    UnknownErrorResponse(IsEvenApiErrorResponse, u16),
    /// No usable answer: the request failed or the body was neither shape.
    NetworkError(reqwest::Error),
}

} // verus!

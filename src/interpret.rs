//! Building the address of a lookup and interpreting the service's answer.

use vstd::prelude::*;

use crate::error::IsEvenApiError;
use crate::response::{IsEvenApiErrorResponse, IsEvenApiResponse};

verus! {

/// The address that a lookup appends the number to.
pub const API_URL: &'static str = "https://api.isevenapi.xyz/api/iseven/";

/// A decoded body: the service answers either shape, with no tag to tell them apart.
/// A decoder tries the verdict first and falls back to the error message.
#[derive(Debug)]
pub enum IsEvenResponseType {
    /// A verdict.
    Success(IsEvenApiResponse),
    /// An error message.
    Failure(IsEvenApiErrorResponse),
}

/// What a decoded body means under a status code: a verdict is taken whatever the
/// status; an error message is classified by the status alone.
pub open spec fn classify(json: IsEvenResponseType, status: u16) -> Result<
    IsEvenApiResponse,
    IsEvenApiError,
> {
    match json {
        IsEvenResponseType::Success(r) => Ok(r),
        IsEvenResponseType::Failure(e) => if status == 400 {
            Err(IsEvenApiError::InvalidNumber(e))
        } else if status == 401 {
            Err(IsEvenApiError::NumberOutOfRange(e))
        } else {
            Err(IsEvenApiError::UnknownErrorResponse(e, status))
        },
    }
}

/// What an answer means: a body that could not be had is a network error; a decoded
/// one is classified.
pub open spec fn interpretation(
    decoded: Result<IsEvenResponseType, reqwest::Error>,
    status: u16,
) -> Result<IsEvenApiResponse, IsEvenApiError> {
    match decoded {
        Ok(json) => classify(json, status),
        Err(e) => Err(IsEvenApiError::NetworkError(e)),
    }
}

/// The address that looks up `number`, given in its textual form; the service judges
/// whether it is a number.
pub fn request_url(number: &str) -> (r: String)
    ensures
        r@ == API_URL@ + number@,
{
    String::from_str(API_URL).concat(number)
}

/// Classifies a decoded body under the status code it came with.
pub fn parse_response(json: IsEvenResponseType, status: u16) -> (r: Result<
    IsEvenApiResponse,
    IsEvenApiError,
>)
    ensures
        r == classify(json, status),
{
    match json {
        IsEvenResponseType::Success(r) => Ok(r),
        IsEvenResponseType::Failure(e) => match status {
            400 => Err(IsEvenApiError::InvalidNumber(e)),
            401 => Err(IsEvenApiError::NumberOutOfRange(e)),
            _ => Err(IsEvenApiError::UnknownErrorResponse(e, status)),
        },
    }
}

/// Interprets an answer: the body as the transport decoded it, or the transport's
/// error, and the status code.
pub fn interpret(decoded: Result<IsEvenResponseType, reqwest::Error>, status: u16) -> (r: Result<
    IsEvenApiResponse,
    IsEvenApiError,
>)
    ensures
        r == interpretation(decoded, status),
{
    match decoded {
        Ok(json) => parse_response(json, status),
        Err(e) => Err(IsEvenApiError::NetworkError(e)),
    }
}

/// Whether the number of a finished lookup is even; a failed lookup's error is passed on.
pub fn is_even(outcome: Result<IsEvenApiResponse, IsEvenApiError>) -> (r: Result<
    bool,
    IsEvenApiError,
>)
    ensures
        match outcome {
            Ok(resp) => r == Ok::<bool, IsEvenApiError>(resp@.iseven),
            Err(e) => r == Err::<bool, IsEvenApiError>(e),
        },
{
    match outcome {
        Ok(resp) => Ok(resp.iseven()),
        Err(e) => Err(e),
    }
}

/// Whether the number of a finished lookup is odd; a failed lookup's error is passed on.
pub fn is_odd(outcome: Result<IsEvenApiResponse, IsEvenApiError>) -> (r: Result<
    bool,
    IsEvenApiError,
>)
    ensures
        match outcome {
            Ok(resp) => r == Ok::<bool, IsEvenApiError>(!resp@.iseven),
            Err(e) => r == Err::<bool, IsEvenApiError>(e),
        },
{
    match is_even(outcome) {
        Ok(even) => Ok(!even),
        Err(e) => Err(e),
    }
}

/// Interpreting an answer depends on the answer alone: the same decoded body and status
/// code, interpreted twice, give equal results.
pub proof fn lemma_interpretation_idempotent(
    decoded1: Result<IsEvenResponseType, reqwest::Error>,
    status1: u16,
    decoded2: Result<IsEvenResponseType, reqwest::Error>,
    status2: u16,
)
    requires
        decoded1 == decoded2,
        status1 == status2,
    ensures
        interpretation(decoded1, status1) == interpretation(decoded2, status2),
{
}

/// Every answer ends in exactly one outcome: the verdict when a verdict was decoded,
/// whatever the status; for an error message, the one error that the status code
/// selects, carrying that message; a network error when no body was decoded.
pub proof fn lemma_every_answer_classified(
    decoded: Result<IsEvenResponseType, reqwest::Error>,
    status: u16,
)
    ensures
        (interpretation(decoded, status) is Ok) <==> (decoded matches Ok(
            IsEvenResponseType::Success(_),
        )),
        decoded matches Ok(IsEvenResponseType::Success(r)) ==> interpretation(decoded, status)
            == Ok::<IsEvenApiResponse, IsEvenApiError>(r),
        (interpretation(decoded, status) matches Err(IsEvenApiError::InvalidNumber(_))) <==> (
        decoded matches Ok(IsEvenResponseType::Failure(_)) && status == 400),
        (interpretation(decoded, status) matches Err(IsEvenApiError::NumberOutOfRange(_)))
            <==> (decoded matches Ok(IsEvenResponseType::Failure(_)) && status == 401),
        (interpretation(decoded, status) matches Err(IsEvenApiError::UnknownErrorResponse(_, _)))
            <==> (decoded matches Ok(IsEvenResponseType::Failure(_)) && status != 400 && status
            != 401),
        (interpretation(decoded, status) matches Err(IsEvenApiError::NetworkError(_))) <==> (
        decoded is Err),
        decoded matches Ok(IsEvenResponseType::Failure(e)) ==> (match interpretation(
            decoded,
            status,
        ) {
            Err(IsEvenApiError::InvalidNumber(m)) => m == e,
            Err(IsEvenApiError::NumberOutOfRange(m)) => m == e,
            Err(IsEvenApiError::UnknownErrorResponse(m, c)) => m == e && c == status,
            _ => false,
        }),
{
}

} // verus!

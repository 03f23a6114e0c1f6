//! A client library for a web service that tells whether a number is even.
//!
//! The library builds the address of a lookup and interprets what the service
//! answers: a status code and a body that is either a verdict or an error message.
//! Sending the request is left to the caller's HTTP transport.

pub mod error;
pub mod interpret;
pub mod iseven;
pub mod response;

pub use error::IsEvenApiError;
pub use interpret::{
    classify, interpret, interpretation, is_even, is_odd, lemma_every_answer_classified,
    lemma_interpretation_idempotent, parse_response, request_url,
    IsEvenResponseType, API_URL,
};
pub use response::{parity_word, IsEvenApiErrorResponse, IsEvenApiResponse, ResponseView};

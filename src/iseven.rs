//! The response types under their short names.

use vstd::prelude::*;

use crate::response::{parity_word, ResponseView};

verus! {

/// The body of a successful lookup: an advertisement and whether the number is even.
#[derive(Debug, Clone)]
pub struct IsEven {
    ad: String,
    iseven: bool,
}

impl View for IsEven {
    type V = ResponseView;

    closed spec fn view(&self) -> ResponseView {
        ResponseView { ad: self.ad@, iseven: self.iseven }
    }
}

impl IsEven {
    /// A response carrying the given advertisement and verdict.
    pub fn new(ad: String, iseven: bool) -> (r: Self)
        ensures
            r@ == (ResponseView { ad: ad@, iseven }),
    {
        IsEven { ad, iseven }
    }

    /// Returns `true` if the number is even.
    pub fn iseven(&self) -> (r: bool)
        ensures
            r == self@.iseven,
    {
        self.iseven
    }

    /// Returns the advertisement.
    pub fn ad(&self) -> (r: &str)
        ensures
            r@ == self@.ad,
    {
        self.ad.as_str()
    }

    /// The verdict as a word: `"even"` or `"odd"`.
    pub fn to_string(&self) -> (r: String)
        ensures
            r@ == parity_word(self@.iseven),
    {
        if self.iseven {
            String::from_str("even")
        } else {
            String::from_str("odd")
        }
    }
}

/// The body of a failed lookup: the service's message, verbatim.
#[derive(Debug, Clone)]
pub struct ErrorResponse {
    error: String,
}

impl View for ErrorResponse {
    type V = Seq<char>;

    closed spec fn view(&self) -> Seq<char> {
        self.error@
    }
}

impl ErrorResponse {
    /// An error body carrying the given message.
    pub fn new(error: String) -> (r: Self)
        ensures
            r@ == error@,
    {
        ErrorResponse { error }
    }

    /// Returns the error message.
    pub fn error(&self) -> (r: &str)
        ensures
            r@ == self@,
    {
        self.error.as_str()
    }

    /// The message, as the error reads when shown.
    pub fn to_string(&self) -> (r: String)
        ensures
            r@ == self@,
    {
        self.error.clone()
    }
}

} // verus!

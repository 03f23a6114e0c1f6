//! The two bodies that the service answers with: a parity verdict and an error message.

use vstd::prelude::*;

verus! {

/// What a successful lookup reports: an advertisement and whether the number is even.
pub struct ResponseView {
    pub ad: Seq<char>,
    pub iseven: bool,
}

/// The body of a successful lookup.
#[derive(Debug, Clone, PartialEq, Eq, PartialOrd, Ord, Hash)]
pub struct IsEvenApiResponse {
    ad: String,
    iseven: bool,
}

impl View for IsEvenApiResponse {
    type V = ResponseView;

    closed spec fn view(&self) -> ResponseView {
        ResponseView { ad: self.ad@, iseven: self.iseven }
    }
}

impl IsEvenApiResponse {
    /// A response carrying the given advertisement and verdict.
    pub fn new(ad: String, iseven: bool) -> (r: Self)
        ensures
            r@ == (ResponseView { ad: ad@, iseven }),
    {
        IsEvenApiResponse { ad, iseven }
    }

    /// Returns `true` if the number is even.
    pub fn iseven(&self) -> (r: bool)
        ensures
            r == self@.iseven,
    {
        self.iseven
    }

    /// Returns the advertisement.
    pub fn ad(&self) -> (r: &str)
        ensures
            r@ == self@.ad,
    {
        self.ad.as_str()
    }

    /// Returns `true` if the number is odd: always the negation of [`Self::iseven`].
    pub fn isodd(&self) -> (r: bool)
        ensures
            r == !self@.iseven,
    {
        !self.iseven()
    }

    /// The verdict as a word: `"even"` or `"odd"`.
    pub fn to_string(&self) -> (r: String)
        ensures
            r@ == parity_word(self@.iseven),
    {
        if self.iseven {
            String::from_str("even")
        } else {
            String::from_str("odd")
        }
    }
}

/// The word that names a parity.
pub open spec fn parity_word(iseven: bool) -> Seq<char> {
    if iseven {
        "even"@
    } else {
        "odd"@
    }
}

/// The body of a failed lookup: the service's message, verbatim.
#[derive(Debug, Clone, PartialEq, Eq, PartialOrd, Ord, Hash)]
pub struct IsEvenApiErrorResponse {
    error: String,
}

impl View for IsEvenApiErrorResponse {
    type V = Seq<char>;

    closed spec fn view(&self) -> Seq<char> {
        self.error@
    }
}

impl IsEvenApiErrorResponse {
    /// An error body carrying the given message.
    pub fn new(error: String) -> (r: Self)
        ensures
            r@ == error@,
    {
        IsEvenApiErrorResponse { error }
    }

    /// Returns the error message.
    pub fn error(&self) -> (r: &str)
        ensures
            r@ == self@,
    {
        self.error.as_str()
    }

    /// The message, as the error reads when shown.
    pub fn to_string(&self) -> (r: String)
        ensures
            r@ == self@,
    {
        self.error.clone()
    }
}

} // verus!

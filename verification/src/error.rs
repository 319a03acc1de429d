//! The one error type of the crate.

use vstd::prelude::*;
use crate::text::decimal_text;
use crate::text::join_text;
use crate::text::u64_text;

verus! {

/// Why a call did not give its result.
#[derive(Debug, PartialEq, Eq)]
pub enum WalrusError {
    /// The transport could not deliver the request or bring a response back.
    /// Holds the transport's own words.
    HttpRequest(String),
    /// A base address is not a URL, or no URL can be built from it.
    InvalidUrl(String),
    /// The service answered with a status outside 200..=299. Holds the status
    /// and the text of the response body.
    ApiError(u16, String),
    /// A response body or header does not have the expected shape.
    ParseError(String),
    /// Data of the caller could not be written as JSON.
    EncodeError(String),
    /// An argument of the caller was refused before anything was sent.
    InvalidParameter(String),
    /// A failure of unknown cause.
    Unknown(String),
    /// Any other failure, such as one of the runtime that drives a call.
    Other(String),
}

/// An error with each text taken by its view.
pub enum ErrorView {
    HttpRequest(Seq<char>),
    InvalidUrl(Seq<char>),
    ApiError(u16, Seq<char>),
    ParseError(Seq<char>),
    EncodeError(Seq<char>),
    InvalidParameter(Seq<char>),
    Unknown(Seq<char>),
    Other(Seq<char>),
}

impl View for WalrusError {
    type V = ErrorView;

    open spec fn view(&self) -> ErrorView {
        match self {
            WalrusError::HttpRequest(m) => ErrorView::HttpRequest(m@),
            WalrusError::InvalidUrl(m) => ErrorView::InvalidUrl(m@),
            WalrusError::ApiError(status, m) => ErrorView::ApiError(*status, m@),
            WalrusError::ParseError(m) => ErrorView::ParseError(m@),
            WalrusError::EncodeError(m) => ErrorView::EncodeError(m@),
            WalrusError::InvalidParameter(m) => ErrorView::InvalidParameter(m@),
            WalrusError::Unknown(m) => ErrorView::Unknown(m@),
            WalrusError::Other(m) => ErrorView::Other(m@),
        }
    }
}

impl ErrorView {
    /// The error in words: what kind of failure it is, then its details.
    pub open spec fn message(self) -> Seq<char> {
        match self {
            ErrorView::HttpRequest(m) => "HTTP request failed: "@ + m,
            ErrorView::InvalidUrl(m) => "Invalid URL: "@ + m,
            ErrorView::ApiError(status, m) => "API error: "@ + decimal_text(status as nat) + " - "@
                + m,
            ErrorView::ParseError(m) => "Failed to parse response: "@ + m,
            ErrorView::EncodeError(m) => "Failed to encode request: "@ + m,
            ErrorView::InvalidParameter(m) => "Invalid parameter: "@ + m,
            ErrorView::Unknown(m) => "Unknown error: "@ + m,
            ErrorView::Other(m) => "Other error: "@ + m,
        }
    }
}

impl WalrusError {
    /// The error in words: what kind of failure it is, then its details.
    pub fn message(&self) -> (r: String)
        ensures
            r@ == self@.message(),
    {
        match self {
            WalrusError::HttpRequest(m) => join_text("HTTP request failed: ", m.as_str()),
            WalrusError::InvalidUrl(m) => join_text("Invalid URL: ", m.as_str()),
            WalrusError::ApiError(status, m) => {
                let code = u64_text(*status as u64);
                join_text("API error: ", code.as_str()).concat(" - ").concat(m.as_str())
            },
            WalrusError::ParseError(m) => join_text("Failed to parse response: ", m.as_str()),
            WalrusError::EncodeError(m) => join_text("Failed to encode request: ", m.as_str()),
            WalrusError::InvalidParameter(m) => join_text("Invalid parameter: ", m.as_str()),
            WalrusError::Unknown(m) => join_text("Unknown error: ", m.as_str()),
            WalrusError::Other(m) => join_text("Other error: ", m.as_str()),
        }
    }
}

/// A result with both sides taken by their views.
pub open spec fn outcome<T: View, E: View>(r: Result<T, E>) -> Result<T::V, E::V> {
    match r {
        Ok(value) => Ok(value@),
        Err(e) => Err(e@),
    }
}

} // verus!

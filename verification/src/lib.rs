//! A client library for the REST API of the Redmine issue tracker.
//!
//! The library describes every supported API endpoint as a value: which HTTP
//! method it uses, which path it addresses, which query parameters it sends
//! and which JSON document it sends as the request body.  It also holds the
//! logic that turns a configured client and an endpoint into a request, and
//! the logic that interprets (paginated) JSON responses.  The network itself
//! is driven by the caller.
pub mod api;

use vstd::prelude::*;

verus! {

/// Error type for the library
#[derive(Debug, Clone)]
pub enum Error {
    /// An error occurred when serializing/deserializing JSON (the message of the JSON library)
    SerdeJsonError(String),
    /// An error occurred when parsing or joining a URL (the message of the URL library)
    UrlParseError(String),
    /// Response body was empty so we can not deserialize it as JSON
    EmptyResponseBody(u16),
    /// Response body was valid JSON but not an object
    NonObjectResponseBody(u16),
    /// Missing response pagination key (total_counts, offset, limit or the wrapper key)
    PaginationKeyMissing(String),
    /// Response pagination key has the wrong type (total_counts, offset, limit)
    PaginationKeyHasWrongType(String),
    /// HTTP Error response
    HttpErrorResponse(u16),
}

/// The mathematical value of an [`Error`]: the same variants, with the
/// strings taken by their character sequences.
pub enum ErrorView {
    SerdeJsonError(Seq<char>),
    UrlParseError(Seq<char>),
    EmptyResponseBody(u16),
    NonObjectResponseBody(u16),
    PaginationKeyMissing(Seq<char>),
    PaginationKeyHasWrongType(Seq<char>),
    HttpErrorResponse(u16),
}

impl View for Error {
    type V = ErrorView;

    open spec fn view(&self) -> ErrorView {
        match self {
            Error::SerdeJsonError(s) => ErrorView::SerdeJsonError(s@),
            Error::UrlParseError(s) => ErrorView::UrlParseError(s@),
            Error::EmptyResponseBody(c) => ErrorView::EmptyResponseBody(*c),
            Error::NonObjectResponseBody(c) => ErrorView::NonObjectResponseBody(*c),
            Error::PaginationKeyMissing(s) => ErrorView::PaginationKeyMissing(s@),
            Error::PaginationKeyHasWrongType(s) => ErrorView::PaginationKeyHasWrongType(s@),
            Error::HttpErrorResponse(c) => ErrorView::HttpErrorResponse(*c),
        }
    }
}

} // verus!

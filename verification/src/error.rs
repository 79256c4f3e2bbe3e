//! The one error type that every fallible step of the client returns.

use crate::json::texts_of;
use vstd::prelude::*;

verus! {

/// What a structured error body of the API holds.
#[derive(Debug, Clone, PartialEq, Eq)]
pub struct ApiError {
    /// The message of the API.
    pub message: String,
    /// Where the API documents the failure, if it says so.
    pub documentation_url: Option<String>,
    /// The detailed errors, each as compact JSON text, if there are any.
    pub errors: Option<Vec<String>>,
}

/// A failure of the client. The variants are closed: a caller can branch on
/// each failure kind.
#[derive(Debug, Clone, PartialEq, Eq)]
pub enum Error {
    /// The network call itself failed; `cause` describes the failure.
    Transport { cause: String },
    /// The base URL and `path` do not resolve to a URL.
    UrlConstruction { path: String },
    /// `value` cannot be written into a request header.
    HeaderConstruction { value: String },
    /// `value` is no well-formed entity tag header.
    InvalidEntityTag { value: String },
    /// A status outside the success range, with a body that is no structured
    /// error of the API.
    Http { status: u16, raw_body: String },
    /// A status outside the success range, with a structured error body.
    Api { status: u16, source: ApiError },
    /// A success status whose body does not have the expected schema.
    Deserialization { cause: String },
}

/// The plain content of an [`ApiError`].
pub struct ApiErrorView {
    pub message: Seq<char>,
    pub documentation_url: Option<Seq<char>>,
    pub errors: Option<Seq<Seq<char>>>,
}

/// The plain content of an [`Error`].
pub enum ErrorView {
    Transport { cause: Seq<char> },
    UrlConstruction { path: Seq<char> },
    HeaderConstruction { value: Seq<char> },
    InvalidEntityTag { value: Seq<char> },
    Http { status: u16, raw_body: Seq<char> },
    Api { status: u16, source: ApiErrorView },
    Deserialization { cause: Seq<char> },
}

/// The view of an optional string.
pub open spec fn text_view(text: Option<String>) -> Option<Seq<char>> {
    match text {
        Some(s) => Some(s@),
        None => None,
    }
}

/// The view of an optional list of strings.
pub open spec fn texts_view(list: Option<Vec<String>>) -> Option<Seq<Seq<char>>> {
    match list {
        Some(l) => Some(texts_of(l@)),
        None => None,
    }
}

impl View for ApiError {
    type V = ApiErrorView;

    open spec fn view(&self) -> ApiErrorView {
        ApiErrorView {
            message: self.message@,
            documentation_url: text_view(self.documentation_url),
            errors: texts_view(self.errors),
        }
    }
}

impl View for Error {
    type V = ErrorView;

    open spec fn view(&self) -> ErrorView {
        match *self {
            Error::Transport { cause } => ErrorView::Transport { cause: cause@ },
            Error::UrlConstruction { path } => ErrorView::UrlConstruction { path: path@ },
            Error::HeaderConstruction { value } => ErrorView::HeaderConstruction { value: value@ },
            Error::InvalidEntityTag { value } => ErrorView::InvalidEntityTag { value: value@ },
            Error::Http { status, raw_body } => ErrorView::Http { status, raw_body: raw_body@ },
            Error::Api { status, source } => ErrorView::Api { status, source: source@ },
            Error::Deserialization { cause } => ErrorView::Deserialization { cause: cause@ },
        }
    }
}

} // verus!

//! Responses as plain values, and the mapping of failure statuses to errors.

use crate::error::{ApiError, ApiErrorView, Error, ErrorView};
use crate::error::{text_view, texts_view};
use crate::json::{
    json_as_array, json_as_text, json_get, json_members, json_object_of, json_parse_object,
    json_text, json_texts, json_to_text, member_items, member_text, texts_of, JsonContent,
};
use vstd::prelude::*;

verus! {

/// The status of a response that tells the client its cached copy is current.
pub const NOT_MODIFIED: u16 = 304;

/// What the transport hands back: a status code, the headers and the body
/// text.
#[derive(Debug, PartialEq)]
pub struct Response {
    pub status: u16,
    pub headers: reqwest::header::HeaderMap,
    pub body: String,
}

/// A status in the success range, 200 to 299.
pub open spec fn is_success(status: u16) -> bool {
    200 <= status < 300
}

/// The structured error that a JSON object stands for: it must hold a string
/// under `message`; `documentation_url` and `errors` are kept where they hold
/// a string and an array.
pub open spec fn api_error_in(members: Map<Seq<char>, JsonContent>) -> Option<ApiErrorView> {
    match member_text(members, "message"@) {
        Some(message) => Some(
            ApiErrorView {
                message,
                documentation_url: member_text(members, "documentation_url"@),
                errors: member_items(members, "errors"@),
            },
        ),
        None => None,
    }
}

/// The structured error that a body text decodes to, if it has that shape.
pub open spec fn api_error_of(body: Seq<char>) -> Option<ApiErrorView> {
    match json_object_of(body) {
        Some(members) => api_error_in(members),
        None => None,
    }
}

/// The error that stands for a failure status with the given body and the
/// given decoding of it.
pub open spec fn failure_with(status: u16, body: Seq<char>, decoded: Option<ApiErrorView>)
    -> ErrorView {
    match decoded {
        Some(source) => ErrorView::Api { status, source },
        None => ErrorView::Http { status, raw_body: body },
    }
}

/// The error that stands for a failure status with the given body.
pub open spec fn failure_of(status: u16, body: Seq<char>) -> ErrorView {
    failure_with(status, body, api_error_of(body))
}

/// The view of an optional structured error.
pub open spec fn api_error_view(decoded: Option<ApiError>) -> Option<ApiErrorView> {
    match decoded {
        Some(e) => Some(e@),
        None => None,
    }
}

/// What the mapper owes for `response`: the response itself on a success
/// status, the error of its status and body otherwise.
pub open spec fn mapped(response: Response, outcome: Result<Response, Error>) -> bool {
    if is_success(response.status) {
        outcome == Ok::<Response, Error>(response)
    } else {
        outcome matches Err(e) && e@ == failure_of(response.status, response.body@)
    }
}

/// Reads the string stored under `key`, if a string is stored there.
fn text_member(object: &serde_json::Map<String, serde_json::Value>, key: &str) -> (text: Option<
    String,
>)
    ensures
        text_view(text) == member_text(json_members(*object), key@),
{
    match json_get(object, key) {
        Some(value) => match json_as_text(value) {
            Some(text) => Some(text.to_owned()),
            None => None,
        },
        None => None,
    }
}

/// Writes each value of a list as compact JSON text.
fn texts_of_values(list: &Vec<serde_json::Value>) -> (texts: Vec<String>)
    ensures
        texts_of(texts@) == json_texts(list@),
{
    let mut texts: Vec<String> = Vec::new();
    let mut at: usize = 0;
    while at < list.len()
        invariant
            at <= list.len(),
            texts.len() == at,
            forall|i: int| 0 <= i < at ==> (#[trigger] texts[i])@ == json_text(list[i]),
        decreases list.len() - at,
    {
        texts.push(json_to_text(&list[at]));
        at = at + 1;
    }
    assert(texts_of(texts@) =~= json_texts(list@));
    texts
}

/// Reads the entries of the array stored under `key`, each as compact JSON
/// text, if an array is stored there.
fn items_member(object: &serde_json::Map<String, serde_json::Value>, key: &str) -> (items: Option<
    Vec<String>,
>)
    ensures
        texts_view(items) == member_items(json_members(*object), key@),
{
    match json_get(object, key) {
        Some(value) => match json_as_array(value) {
            Some(list) => Some(texts_of_values(list)),
            None => None,
        },
        None => None,
    }
}

impl ApiError {
    /// Reads a structured error out of a JSON object: `Some` exactly when the
    /// object holds a string under `message`.
    pub fn from_object(object: &serde_json::Map<String, serde_json::Value>) -> (decoded: Option<
        ApiError,
    >)
        ensures
            api_error_view(decoded) == api_error_in(json_members(*object)),
    {
        match text_member(object, "message") {
            Some(message) => {
                let documentation_url = text_member(object, "documentation_url");
                let errors = items_member(object, "errors");
                Some(ApiError { message, documentation_url, errors })
            },
            None => None,
        }
    }

    /// Decodes a body text as a structured error, if it has that shape.
    pub fn decode(body: &str) -> (decoded: Option<ApiError>)
        ensures
            api_error_view(decoded) == api_error_of(body@),
    {
        match json_parse_object(body) {
            Some(object) => ApiError::from_object(&object),
            None => None,
        }
    }
}

impl Error {
    /// The error for a failure status: `Api` where the body was decoded as a
    /// structured error, `Http` with the raw body where it was not.
    pub fn from_failure(status: u16, raw_body: String, decoded: Option<ApiError>) -> (error: Error)
        ensures
            error@ == failure_with(status, raw_body@, api_error_view(decoded)),
    {
        match decoded {
            Some(source) => Error::Api { status, source },
            None => Error::Http { status, raw_body },
        }
    }
}

impl Response {
    /// Whether the status is in the success range.
    pub fn is_success(&self) -> (yes: bool)
        ensures
            yes == is_success(self.status),
    {
        200 <= self.status && self.status < 300
    }

    /// Whether the status says that the cached copy is current.
    pub fn is_not_modified(&self) -> (yes: bool)
        ensures
            yes == (self.status == NOT_MODIFIED),
    {
        self.status == NOT_MODIFIED
    }
}

/// Passes a response with a success status through unchanged, and turns any
/// other into the error of its status and body: `Api` where the body is a
/// structured error, `Http` with the raw body where it is not.
pub fn map_github_error(response: Response) -> (outcome: Result<Response, Error>)
    ensures
        mapped(response, outcome),
{
    if response.is_success() {
        Ok(response)
    } else {
        let decoded = ApiError::decode(response.body.as_str());
        Err(Error::from_failure(response.status, response.body, decoded))
    }
}

/// What a plain read gives, given the response and what the body decodes to.
pub open spec fn converted<T>(
    response: Response,
    decoded: Result<T, String>,
    outcome: Result<T, Error>,
) -> bool {
    if is_success(response.status) {
        match decoded {
            Ok(value) => outcome == Ok::<T, Error>(value),
            Err(cause) => outcome matches Err(e) && e@ == (ErrorView::Deserialization {
                cause: cause@,
            }),
        }
    } else {
        outcome matches Err(e) && e@ == failure_of(response.status, response.body@)
    }
}

/// Turns a response into the typed resource. `decoded` is what the body
/// decodes to, or why it does not. Every status outside the success range
/// gives the error of the status and body; a success status gives the decoded
/// value, or `Deserialization` where there is none.
pub fn typed_result<T>(response: Response, decoded: Result<T, String>) -> (outcome: Result<
    T,
    Error,
>)
    ensures
        converted(response, decoded, outcome),
{
    match map_github_error(response) {
        Ok(_) => match decoded {
            Ok(value) => Ok(value),
            Err(cause) => Err(Error::Deserialization { cause }),
        },
        Err(e) => Err(e),
    }
}

/// The mapper leaves a success response as it is, so mapping it again
/// changes nothing; and two mappings of one failure response give errors with
/// the same content.
pub proof fn lemma_mapper_repeatable(
    response: Response,
    first: Result<Response, Error>,
    second: Result<Response, Error>,
)
    requires
        mapped(response, first),
        mapped(response, second),
    ensures
        is_success(response.status) ==> first == Ok::<Response, Error>(response) && mapped(
            first.unwrap(),
            first,
        ),
        !is_success(response.status) ==> first is Err && second is Err && first.unwrap_err()@
            == second.unwrap_err()@,
{
}

} // verus!

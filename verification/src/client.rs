//! The client handle and the requests that builders hand to the transport.

use crate::api::current::create::{create_unset, CreateUserRepositoryBuilder};
use crate::api::events::{events_unset, EventsBuilder};
use crate::error::{Error, ErrorView};
use crate::response::Response;
use crate::url::{joined_url, url_join, url_text, url_view};
use vstd::prelude::*;
use vstd::string::StringExecFns;

verus! {

/// The method of a request.
#[derive(Debug, Clone, Copy, PartialEq, Eq, Structural)]
pub enum Method {
    Get,
    Post,
}

/// One assembled request, ready for the transport: every part of it is
/// final, and the transport adds nothing but what the client was built with.
#[derive(Debug, PartialEq)]
pub struct Request {
    pub method: Method,
    /// The absolute URL, without the query.
    pub url: reqwest::Url,
    pub headers: reqwest::header::HeaderMap,
    /// The query parameters in order, each a name and a number.
    pub query: Vec<(String, u32)>,
    /// The JSON object to send as the body, if the request has one.
    pub body: Option<serde_json::Map<String, serde_json::Value>>,
}

/// The plain content of a list of query parameters.
pub open spec fn query_view(query: Seq<(String, u32)>) -> Seq<(Seq<char>, u32)> {
    query.map_values(|pair: (String, u32)| (pair.0@, pair.1))
}

/// The shared client handle: the configuration that every request is sent
/// with. It does not change once built.
#[derive(Debug, PartialEq, Eq)]
pub struct Octocrab {
    /// The URL that the paths of the API are resolved against.
    pub base_url: reqwest::Url,
}

/// The part of the API that acts for the authenticated user.
#[derive(Debug, Clone, Copy)]
pub struct CurrentAuthHandler<'octo> {
    pub crab: &'octo Octocrab,
}

/// What resolving `path` owes, given what the resolution gives: the URL, or
/// the failure that carries the path.
pub open spec fn url_outcome(path: Seq<char>, resolved: Option<Seq<char>>, outcome: Result<
    reqwest::Url,
    Error,
>) -> bool {
    match outcome {
        Ok(url) => resolved == Some(url_text(url)),
        Err(e) => resolved is None && e@ == (ErrorView::UrlConstruction { path }),
    }
}

impl Octocrab {
    /// A client for the API at `base_url`.
    pub fn new(base_url: reqwest::Url) -> (crab: Octocrab)
        ensures
            crab.base_url == base_url,
    {
        Octocrab { base_url }
    }

    /// The URL of a resolution that has been made: the URL where there is
    /// one, `UrlConstruction` with the path where there is none.
    pub fn url_or_error(path: &str, resolved: Option<reqwest::Url>) -> (outcome: Result<
        reqwest::Url,
        Error,
    >)
        ensures
            url_outcome(path@, url_view(resolved), outcome),
            resolved matches Some(url) ==> outcome == Ok::<reqwest::Url, Error>(url),
    {
        match resolved {
            Some(url) => Ok(url),
            None => Err(Error::UrlConstruction { path: String::from_str(path) }),
        }
    }

    /// Resolves a path of the API against the base URL. Fails with
    /// `UrlConstruction` exactly when the path does not resolve to a URL.
    pub fn absolute_url(&self, path: &str) -> (outcome: Result<reqwest::Url, Error>)
        ensures
            url_outcome(path@, joined_url(url_text(self.base_url), path@), outcome),
    {
        Octocrab::url_or_error(path, url_join(&self.base_url, path))
    }

    /// The result of one round trip, from what the transport reports: the
    /// response as it is, whatever its status, or `Transport` with the cause
    /// where the network call itself failed.
    pub fn delivered(outcome: Result<Response, String>) -> (result: Result<Response, Error>)
        ensures
            match outcome {
                Ok(response) => result == Ok::<Response, Error>(response),
                Err(cause) => result matches Err(e) && e@ == (ErrorView::Transport {
                    cause: cause@,
                }),
            },
    {
        match outcome {
            Ok(response) => Ok(response),
            Err(cause) => Err(Error::Transport { cause }),
        }
    }

    /// A read of the public events, with nothing set.
    pub fn events(&self) -> (builder: EventsBuilder<'_>)
        ensures
            builder@ == events_unset(url_text(self.base_url)),
    {
        EventsBuilder::new(self)
    }

    /// The part of the API that acts for the authenticated user.
    pub fn current(&self) -> (handler: CurrentAuthHandler<'_>)
        ensures
            handler.crab == self,
    {
        CurrentAuthHandler { crab: self }
    }
}

impl<'octo> CurrentAuthHandler<'octo> {
    /// A request to create the repository `name` for the authenticated user,
    /// with nothing else set.
    pub fn create_repo<'r>(&'r self, name: String) -> (builder: CreateUserRepositoryBuilder<
        'octo,
        'r,
    >)
        ensures
            builder@ == create_unset(url_text(self.crab.base_url), name@),
    {
        CreateUserRepositoryBuilder::new(self, name)
    }
}

} // verus!

//! The public events of the API, read page by page and conditionally.

use crate::client::{query_view, Method, Octocrab, Request};
use crate::conditional::Sent;
use crate::error::{Error, ErrorView};
use crate::etag::{header_bytes, header_text, tag_view, EntityTag, EntityTagView};
use crate::header::{header_entries, header_map_new, no_headers};
use crate::header_text::header_text_accepted;
use crate::url::{joined_url, url_text};
use vstd::prelude::*;
use vstd::string::StringExecFns;

verus! {

/// Collects the parameters of one read of the events, and issues it.
pub struct EventsBuilder<'octo> {
    crab: &'octo Octocrab,
    headers: Headers,
    params: Params,
}

struct Headers {
    etag: Option<EntityTag>,
}

struct Params {
    per_page: Option<u8>,
    page: Option<u32>,
}

/// What an [`EventsBuilder`] has been given so far.
pub struct EventsView {
    pub base_url: Seq<char>,
    pub etag: Option<EntityTagView>,
    pub per_page: Option<u8>,
    pub page: Option<u32>,
}

impl<'octo> View for EventsBuilder<'octo> {
    type V = EventsView;

    closed spec fn view(&self) -> EventsView {
        EventsView {
            base_url: url_text(self.crab.base_url),
            etag: tag_view(self.headers.etag),
            per_page: self.params.per_page,
            page: self.params.page,
        }
    }
}

/// A read for the client at `base_url` with nothing set.
pub open spec fn events_unset(base_url: Seq<char>) -> EventsView {
    EventsView { base_url, etag: None, per_page: None, page: None }
}

/// The query of a read: `per_page` and then `page`, each only if it was set.
pub open spec fn events_query(builder: EventsView) -> Seq<(Seq<char>, u32)> {
    let per_page = match builder.per_page {
        Some(n) => seq![("per_page"@, n as u32)],
        None => seq![],
    };
    let page = match builder.page {
        Some(n) => seq![("page"@, n)],
        None => seq![],
    };
    per_page + page
}

/// The headers of a read: `if-none-match` with the tag, if one was set, and
/// nothing else.
pub open spec fn events_headers(builder: EventsView) -> Map<Seq<char>, Seq<u8>> {
    match builder.etag {
        Some(tag) => no_headers().insert("if-none-match"@, header_bytes(tag)),
        None => no_headers(),
    }
}

/// The tag of the builder cannot be written into a header: its opaque text
/// holds a control character other than the tab.
pub open spec fn tag_refused(builder: EventsView) -> bool {
    builder.etag matches Some(tag) && !header_text_accepted(tag.opaque)
}

/// `sent` is the read that the builder issues to `url`.
pub open spec fn events_read(builder: EventsView, url: Seq<char>, sent: Sent) -> bool {
    &&& sent.request.method == Method::Get
    &&& url_text(sent.request.url) == url
    &&& header_entries(sent.request.headers) == events_headers(builder)
    &&& query_view(sent.request.query@) == events_query(builder)
    &&& sent.request.body is None
    &&& tag_view(sent.etag) == builder.etag
}

/// What issuing the read to `url` owes: the read, unless the tag is refused.
pub open spec fn events_issued(builder: EventsView, url: Seq<char>, outcome: Result<Sent, Error>)
    -> bool {
    match outcome {
        Ok(sent) => !tag_refused(builder) && events_read(builder, url, sent),
        Err(e) => tag_refused(builder) && e@ == (ErrorView::HeaderConstruction {
            value: header_text(builder.etag.unwrap()),
        }),
    }
}

/// What the query must hold for a parameter: the name once, with the value
/// of the parameter, if it was set, a zero too; and not the name at all if
/// it was not.
pub open spec fn parameter_matches(
    query: Seq<(Seq<char>, u32)>,
    name: Seq<char>,
    field: Option<u32>,
) -> bool {
    match field {
        Some(value) => exists|i: int|
            0 <= i < query.len() && #[trigger] query[i] == (name, value) && forall|j: int|
                0 <= j < query.len() && (#[trigger] query[j]).0 == name ==> j == i,
        None => forall|j: int| 0 <= j < query.len() ==> (#[trigger] query[j]).0 != name,
    }
}

/// The value that `per_page` is sent with.
pub open spec fn per_page_sent(builder: EventsView) -> Option<u32> {
    match builder.per_page {
        Some(n) => Some(n as u32),
        None => None,
    }
}

/// The read holds each parameter that was set, under its own name and with
/// the value it was set to, and holds nothing for one that was not set: the
/// query names nothing but `per_page` and `page`, and the headers nothing but
/// `if-none-match`, which is there exactly when a tag was set.
pub proof fn lemma_read_holds_what_was_set(builder: EventsView)
    ensures
        parameter_matches(events_query(builder), "per_page"@, per_page_sent(builder)),
        parameter_matches(events_query(builder), "page"@, builder.page),
        forall|j: int|
            0 <= j < events_query(builder).len() ==> (#[trigger] events_query(builder)[j]).0
                == "per_page"@ || events_query(builder)[j].0 == "page"@,
        events_headers(builder).contains_key("if-none-match"@) <==> builder.etag is Some,
        builder.etag matches Some(tag) ==> events_headers(builder)["if-none-match"@]
            == header_bytes(tag),
        forall|name: Seq<char>| #[trigger]
            events_headers(builder).contains_key(name) ==> name == "if-none-match"@,
{
    reveal_strlit("per_page");
    reveal_strlit("page");
    assert("per_page"@ != "page"@) by {
        assert("per_page"@.len() != "page"@.len());
    }
    let query = events_query(builder);
    match (builder.per_page, builder.page) {
        (Some(n), Some(p)) => {
            assert(query =~= seq![("per_page"@, n as u32), ("page"@, p)]);
            assert(query[0] == ("per_page"@, n as u32));
            assert(query[1] == ("page"@, p));
        },
        (Some(n), None) => {
            assert(query =~= seq![("per_page"@, n as u32)]);
            assert(query[0] == ("per_page"@, n as u32));
        },
        (None, Some(p)) => {
            assert(query =~= seq![("page"@, p)]);
            assert(query[0] == ("page"@, p));
        },
        (None, None) => {
            assert(query =~= Seq::<(Seq<char>, u32)>::empty());
        },
    }
}

impl<'octo> EventsBuilder<'octo> {
    /// A read of the events with nothing set.
    pub fn new(crab: &'octo Octocrab) -> (builder: Self)
        ensures
            builder@ == events_unset(url_text(crab.base_url)),
    {
        Self {
            crab,
            headers: Headers { etag: None },
            params: Params { per_page: None, page: None },
        }
    }

    /// Etag for this request.
    pub fn etag(self, etag: Option<EntityTag>) -> (builder: Self)
        ensures
            builder@ == (EventsView { etag: tag_view(etag), ..self@ }),
    {
        let mut builder = self;
        builder.headers.etag = etag;
        builder
    }

    /// Results per page (max 100).
    pub fn per_page(self, per_page: u8) -> (builder: Self)
        ensures
            builder@ == (EventsView { per_page: Some(per_page), ..self@ }),
    {
        let mut builder = self;
        builder.params.per_page = Some(per_page);
        builder
    }

    /// Page number of the results to fetch.
    pub fn page(self, page: u32) -> (builder: Self)
        ensures
            builder@ == (EventsView { page: Some(page), ..self@ }),
    {
        let mut builder = self;
        builder.params.page = Some(page);
        builder
    }

    /// The query parameters: those that were set, and no others.
    pub fn query(&self) -> (query: Vec<(String, u32)>)
        ensures
            query_view(query@) == events_query(self@),
    {
        let mut query: Vec<(String, u32)> = Vec::new();
        if let Some(n) = self.params.per_page {
            let ghost before = query@;
            query.push((String::from_str("per_page"), n as u32));
            assert(query_view(query@) =~= query_view(before).push(("per_page"@, n as u32)));
        }
        if let Some(n) = self.params.page {
            let ghost before = query@;
            query.push((String::from_str("page"), n));
            assert(query_view(query@) =~= query_view(before).push(("page"@, n)));
        }
        assert(query_view(query@) =~= events_query(self@));
        query
    }

    /// Issues the read to `url`, which must be the resolved URL of the
    /// endpoint: a `GET` with the query parameters that were set, and with the
    /// tag in `if-none-match` if one was set. Fails with
    /// `HeaderConstruction` exactly when a tag was set that cannot be written
    /// into a header.
    pub fn request_to(self, url: reqwest::Url) -> (outcome: Result<Sent, Error>)
        ensures
            events_issued(self@, url_text(url), outcome),
            outcome matches Ok(sent) ==> sent.request.url == url,
    {
        let query = self.query();
        let mut headers = header_map_new();
        let etag = match self.headers.etag {
            Some(tag) => {
                let kept = tag.clone();
                match EntityTag::insert_if_none_match_header(&mut headers, tag) {
                    Ok(_) => Some(kept),
                    Err(e) => {
                        return Err(e);
                    },
                }
            },
            None => None,
        };
        let request = Request { method: Method::Get, url, headers, query, body: None };
        Ok(Sent { request, etag })
    }

    /// Issues the read: resolves `events` against the base URL of the client
    /// and goes on as [`EventsBuilder::request_to`]. Fails with
    /// `UrlConstruction` exactly when the URL does not resolve.
    pub fn request(self) -> (outcome: Result<Sent, Error>)
        ensures
            match joined_url(self@.base_url, "events"@) {
                Some(url) => events_issued(self@, url, outcome),
                None => outcome matches Err(e) && e@ == (ErrorView::UrlConstruction {
                    path: "events"@,
                }),
            },
    {
        match self.crab.absolute_url("events") {
            Ok(url) => self.request_to(url),
            Err(e) => Err(e),
        }
    }
}

} // verus!

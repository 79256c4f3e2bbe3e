//! The conditional read: a request goes out, perhaps with an entity tag, and
//! the response settles it as not modified, as modified with a body, or as
//! failed.

use crate::client::Request;
use crate::error::{Error, ErrorView};
use crate::etag::{tag_in, tag_view, EntityTag, EntityTagView, Etagged};
use crate::header::header_entries;
use crate::page::{failing_link, links_in, links_resolved, Page, PageLinks};
use crate::url::url_text;
use crate::response::{failure_of, is_success, typed_result, Response, NOT_MODIFIED};
use vstd::prelude::*;

verus! {

/// A read that has been issued and not yet answered: the request, and the
/// entity tag that it was made conditional on, if any.
#[derive(Debug, PartialEq)]
pub struct Sent {
    pub request: Request,
    pub etag: Option<EntityTag>,
}

/// The validator of a "not modified" answer: that of the response, or where
/// the response carries none, that of the request.
pub open spec fn echoed(fresh: Option<EntityTagView>, sent: Option<EntityTagView>) -> Option<
    EntityTagView,
> {
    if fresh is Some {
        fresh
    } else {
        sent
    }
}

/// What a read settles to, given the tag of the request, the response, and
/// what the body decodes to.
pub open spec fn settled<T>(
    sent: Option<EntityTagView>,
    response: Response,
    decoded: Result<T, String>,
    outcome: Result<Etagged<T>, Error>,
) -> bool {
    let fresh = tag_in(header_entries(response.headers));
    if response.status == NOT_MODIFIED {
        outcome matches Ok(read) && read.value is None && tag_view(read.etag) == echoed(
            fresh,
            sent,
        )
    } else if is_success(response.status) {
        match decoded {
            Ok(value) => outcome matches Ok(read) && read.value == Some(value) && tag_view(
                read.etag,
            ) == fresh,
            Err(cause) => outcome matches Err(e) && e@ == (ErrorView::Deserialization {
                cause: cause@,
            }),
        }
    } else {
        outcome matches Err(e) && e@ == failure_of(response.status, response.body@)
    }
}

/// What a read of a collection settles to, given the URL and the tag of the
/// request, the response, and the items that the body decodes to.
pub open spec fn page_settled<T>(
    url: Seq<char>,
    sent: Option<EntityTagView>,
    response: Response,
    decoded: Result<Vec<T>, String>,
    outcome: Result<Etagged<Page<T>>, Error>,
) -> bool {
    let fresh = tag_in(header_entries(response.headers));
    let links = links_in(header_entries(response.headers));
    if response.status == NOT_MODIFIED {
        outcome matches Ok(read) && read.value is None && tag_view(read.etag) == echoed(
            fresh,
            sent,
        )
    } else if is_success(response.status) {
        match decoded {
            Ok(items) => match failing_link(url, links) {
                Some(link) => outcome matches Err(e) && e@ == (ErrorView::UrlConstruction {
                    path: link,
                }),
                None => outcome matches Ok(read) && tag_view(read.etag) == fresh
                    && read.value is Some && read.value.unwrap().holds(
                    items,
                    links_resolved(url, links),
                ),
            },
            Err(cause) => outcome matches Err(e) && e@ == (ErrorView::Deserialization {
                cause: cause@,
            }),
        }
    } else {
        outcome matches Err(e) && e@ == failure_of(response.status, response.body@)
    }
}

impl Sent {
    /// Settles the read with the response. `decoded` is what the body decodes
    /// to, or why it does not; it is looked at only on a success status.
    ///
    /// On "not modified" the value is absent and the tag is that of the
    /// response, or that of the request where the response has none. On a
    /// success status the value is the decoded body and the tag that of the
    /// response. Anything else fails. So a read that does not fail has a
    /// value and a success status, or no value and the status "not
    /// modified", never anything else.
    pub fn receive<T>(self, response: Response, decoded: Result<T, String>) -> (outcome: Result<
        Etagged<T>,
        Error,
    >)
        ensures
            settled(tag_view(self.etag), response, decoded, outcome),
            outcome matches Ok(read) ==> read.answers(response.status),
    {
        let fresh = EntityTag::extract_from_response(&response);
        if response.is_not_modified() {
            let etag = match fresh {
                Some(tag) => Some(tag),
                None => self.etag,
            };
            Ok(Etagged { etag, value: None })
        } else {
            match typed_result(response, decoded) {
                Ok(value) => Ok(Etagged { etag: fresh, value: Some(value) }),
                Err(e) => Err(e),
            }
        }
    }

    /// Settles the read of a collection with the response. `decoded` is the
    /// list of items that the body decodes to, or why it does not. This goes
    /// as [`Sent::receive`], and the value is the page of these items, in
    /// their order, with the links of the `link` header of the response,
    /// each resolved against the URL of the request. A link that does not
    /// resolve fails the read with `UrlConstruction`.
    pub fn receive_page<T>(self, response: Response, decoded: Result<Vec<T>, String>) -> (outcome:
        Result<Etagged<Page<T>>, Error>)
        ensures
            page_settled(
                url_text(self.request.url),
                tag_view(self.etag),
                response,
                decoded,
                outcome,
            ),
            outcome matches Ok(read) ==> read.answers(response.status),
    {
        if response.is_success() {
            match decoded {
                Ok(items) => {
                    let links = PageLinks::from_response(&response);
                    match Page::resolve(items, links, &self.request.url) {
                        Ok(page) => self.receive(response, Ok(page)),
                        Err(e) => Err(e),
                    }
                },
                Err(cause) => self.receive(response, Err(cause)),
            }
        } else {
            self.receive(response, Err(String::new()))
        }
    }
}

} // verus!

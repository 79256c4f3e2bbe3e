//! One bounded slice of a larger ordered collection.

use crate::client::Octocrab;
use crate::error::{text_view, Error, ErrorView};
use crate::header::{header_bytes_visible, header_entries, header_map_get, header_value_to_str};
use crate::link::{link_to, link_url};
use crate::response::Response;
use crate::url::{joined_url, url_join, url_text, url_view};
use vstd::prelude::*;
use vstd::utf8::decode_utf8;

verus! {

/// The links that a `link` header gives, as it writes them: each may be
/// relative to the URL of the request, and is absent where the header does
/// not name it.
#[derive(Debug, Clone, PartialEq, Eq)]
pub struct PageLinks {
    pub next: Option<String>,
    pub prev: Option<String>,
    pub first: Option<String>,
    pub last: Option<String>,
}

/// One page of a collection: the items in the order in which the server
/// returned them, and the links to the neighbouring pages, each a URL that
/// can be fetched as it is, or absent at the boundary of the collection.
#[derive(Debug, PartialEq, Eq)]
pub struct Page<T> {
    pub items: Vec<T>,
    pub next: Option<reqwest::Url>,
    pub prev: Option<reqwest::Url>,
    pub first: Option<reqwest::Url>,
    pub last: Option<reqwest::Url>,
    pub total_count: Option<u64>,
}

/// The plain content of four links.
pub struct PageLinksView {
    pub next: Option<Seq<char>>,
    pub prev: Option<Seq<char>>,
    pub first: Option<Seq<char>>,
    pub last: Option<Seq<char>>,
}

impl View for PageLinks {
    type V = PageLinksView;

    open spec fn view(&self) -> PageLinksView {
        PageLinksView {
            next: text_view(self.next),
            prev: text_view(self.prev),
            first: text_view(self.first),
            last: text_view(self.last),
        }
    }
}

/// No link at all.
pub open spec fn no_links() -> PageLinksView {
    PageLinksView { next: None, prev: None, first: None, last: None }
}

/// The links that the text of a `link` header gives.
pub open spec fn links_of(text: Seq<char>) -> PageLinksView {
    PageLinksView {
        next: link_to(text, "next"@),
        prev: link_to(text, "prev"@),
        first: link_to(text, "first"@),
        last: link_to(text, "last"@),
    }
}

/// The links that the headers of a response give: those of its `link`
/// header, where it has one that holds visible ASCII only.
pub open spec fn links_in(entries: Map<Seq<char>, Seq<u8>>) -> PageLinksView {
    if entries.contains_key("link"@) && header_bytes_visible(entries["link"@]) {
        links_of(decode_utf8(entries["link"@]))
    } else {
        no_links()
    }
}

/// What a link resolves to against the URL with the text `base`, where there
/// is a link.
pub open spec fn link_resolved(base: Seq<char>, link: Option<Seq<char>>) -> Option<Seq<char>> {
    match link {
        Some(target) => joined_url(base, target),
        None => None,
    }
}

/// There is a link, and it does not resolve against `base`.
pub open spec fn link_fails(base: Seq<char>, link: Option<Seq<char>>) -> bool {
    link is Some && link_resolved(base, link) is None
}

/// The first link that does not resolve against `base`, in the order `next`,
/// `prev`, `first`, `last`.
pub open spec fn failing_link(base: Seq<char>, links: PageLinksView) -> Option<Seq<char>> {
    if link_fails(base, links.next) {
        links.next
    } else if link_fails(base, links.prev) {
        links.prev
    } else if link_fails(base, links.first) {
        links.first
    } else if link_fails(base, links.last) {
        links.last
    } else {
        None
    }
}

/// The links, each resolved against `base`.
pub open spec fn links_resolved(base: Seq<char>, links: PageLinksView) -> PageLinksView {
    PageLinksView {
        next: link_resolved(base, links.next),
        prev: link_resolved(base, links.prev),
        first: link_resolved(base, links.first),
        last: link_resolved(base, links.last),
    }
}

/// Resolves one link against `base`, where there is a link.
fn resolve_link(base: &reqwest::Url, link: Option<String>) -> (outcome: Result<
    Option<reqwest::Url>,
    Error,
>)
    ensures
        match outcome {
            Ok(url) => !link_fails(url_text(*base), text_view(link)) && url_view(url)
                == link_resolved(url_text(*base), text_view(link)),
            Err(e) => link_fails(url_text(*base), text_view(link)) && e@
                == (ErrorView::UrlConstruction { path: link.unwrap()@ }),
        },
{
    match link {
        Some(target) => {
            match Octocrab::url_or_error(target.as_str(), url_join(base, target.as_str())) {
                Ok(url) => Ok(Some(url)),
                Err(e) => Err(e),
            }
        },
        None => Ok(None),
    }
}

impl PageLinks {
    /// Reads the links out of the text of a `link` header. A relation that
    /// the header does not name has no link.
    pub fn parse(text: &str) -> (links: PageLinks)
        ensures
            links@ == links_of(text@),
    {
        PageLinks {
            next: link_url(text, "next"),
            prev: link_url(text, "prev"),
            first: link_url(text, "first"),
            last: link_url(text, "last"),
        }
    }

    /// Reads the links of a response from its `link` header. A response
    /// without the header has no links.
    pub fn from_response(response: &Response) -> (links: PageLinks)
        ensures
            links@ == links_in(header_entries(response.headers)),
    {
        let none = PageLinks { next: None, prev: None, first: None, last: None };
        match header_map_get(&response.headers, "link") {
            Some(value) => match header_value_to_str(value) {
                Some(text) => {
                    proof {
                        vstd::utf8::encode_utf8_decode_utf8(text@);
                    }
                    PageLinks::parse(text)
                },
                None => none,
            },
            None => none,
        }
    }
}

impl<T> Page<T> {
    /// The links of the page, as text.
    pub open spec fn links(&self) -> PageLinksView {
        PageLinksView {
            next: url_view(self.next),
            prev: url_view(self.prev),
            first: url_view(self.first),
            last: url_view(self.last),
        }
    }

    /// The page holds `items`, the links `links`, and no count.
    pub open spec fn holds(&self, items: Vec<T>, links: PageLinksView) -> bool {
        self.items == items && self.links() == links && self.total_count is None
    }

    /// The page that holds `items`, in their order, with each of `links`
    /// resolved against `base`, the URL of the request that they came back
    /// for. Fails with `UrlConstruction`, which carries the link, at the
    /// first link that does not resolve.
    pub fn resolve(items: Vec<T>, links: PageLinks, base: &reqwest::Url) -> (outcome: Result<
        Page<T>,
        Error,
    >)
        ensures
            match outcome {
                Ok(page) => failing_link(url_text(*base), links@) is None && page.holds(
                    items,
                    links_resolved(url_text(*base), links@),
                ),
                Err(e) => failing_link(url_text(*base), links@) matches Some(link) && e@
                    == (ErrorView::UrlConstruction { path: link }),
            },
    {
        let next = match resolve_link(base, links.next) {
            Ok(url) => url,
            Err(e) => {
                return Err(e);
            },
        };
        let prev = match resolve_link(base, links.prev) {
            Ok(url) => url,
            Err(e) => {
                return Err(e);
            },
        };
        let first = match resolve_link(base, links.first) {
            Ok(url) => url,
            Err(e) => {
                return Err(e);
            },
        };
        let last = match resolve_link(base, links.last) {
            Ok(url) => url,
            Err(e) => {
                return Err(e);
            },
        };
        Ok(Page { items, next, prev, first, last, total_count: None })
    }
}

} // verus!

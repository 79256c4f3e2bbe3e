//! URLs of `reqwest`, as the rest of the crate sees them.
//!
//! Nothing in this file is proved: the contract restates what the source of
//! the `url` crate (which `reqwest` re-exports) shows of the one function
//! that the body calls.

use vstd::prelude::*;

verus! {

#[verifier::external_type_specification]
#[verifier::external_body]
pub struct ExUrl(reqwest::Url);

/// The text of a URL: what `Url::as_str` gives.
pub uninterp spec fn url_text(url: reqwest::Url) -> Seq<char>;

/// The text of the URL that `Url::join` gives for `path` against the URL
/// with the text `base`, or `None` where it gives none.
pub uninterp spec fn joined_url(base: Seq<char>, path: Seq<char>) -> Option<Seq<char>>;

/// The text of a URL that may be absent.
pub open spec fn url_view(url: Option<reqwest::Url>) -> Option<Seq<char>> {
    match url {
        Some(u) => Some(url_text(u)),
        None => None,
    }
}

/// `Url::join`: `path` resolved against `base`, if it resolves. The result
/// is a function of the text of `base` and of `path` alone.
#[verifier::external_body]
pub(crate) fn url_join(base: &reqwest::Url, path: &str) -> (url: Option<reqwest::Url>)
    ensures
        url_view(url) == joined_url(url_text(*base), path@),
{
    base.join(path).ok()
}

} // verus!

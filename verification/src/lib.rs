//! A typed client layer for a REST API: request builders, conditional
//! re-fetching with entity tags, pagination links and one error taxonomy.

pub mod api;
pub mod client;
pub mod conditional;
pub mod error;
pub mod etag;
pub mod header;
pub mod header_text;
pub mod json;
pub mod link;
pub mod link_text;
pub mod page;
pub mod response;
pub mod url;

pub use crate::client::Octocrab;
pub use crate::error::Error;
pub use crate::page::Page;
pub use crate::response::map_github_error;

//! The request builders, one per endpoint.

pub mod current;
pub mod events;

//! The endpoints that act for the authenticated user.

pub mod create;

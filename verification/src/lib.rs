//! A single-resource HTTP query service, as a verified core.
//!
//! The crate decides everything a request leads to, on plain values: which
//! route a method and a path select, what the question handler answers, which
//! status and body an outcome becomes, and whether the cross-origin headers
//! are granted. Listening on a socket and writing bytes is left to the caller.

pub mod cors;
pub mod domain;
pub mod handler;
pub mod request;
pub mod response;
pub mod router;
pub mod text;

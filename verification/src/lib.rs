//! An OAuth 2.0 client library for the authorization-code grant.
//!
//! The library builds authorization URIs and token requests, and turns the
//! JSON that a token endpoint answers with into typed tokens.  A token pairs
//! an access credential with a lifetime: one that never expires, one that
//! expires, or one that expires and can be refreshed.
//!
//! Sending a request is left to the caller.  Everything here is a function of
//! its arguments, except the few functions that read the system clock; each of
//! those has a counterpart that takes the time as an argument.

pub mod client;
pub mod error;
pub mod json;
pub mod query;
pub mod text;
pub mod time;
pub mod token;

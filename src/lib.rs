//! Versioned route composition for an HTTP API built on Rocket.
//!
//! A composer takes the server builder and a base URL, forms the prefix
//! `base + "/v1"` by plain concatenation, and hands both to the registrar of
//! the child routes, returning the builder that the registrar gives back.

pub mod compose;
pub mod url;

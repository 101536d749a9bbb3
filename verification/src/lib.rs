//! A typed client library for the Consul HTTP API.
//!
//! The heart of the crate is the request/response pipeline: a declarative
//! endpoint description (path, method, body, query parameters) is turned into
//! a fully formed wire request with the API version prefix, the ACL token
//! header and any optional per-request features applied, and the raw wire
//! response is turned into a typed result with structured error
//! classification. Every step of that pipeline is specified and verified;
//! the HTTP transport itself and JSON (de)serialization of endpoint payloads
//! are collaborators that live outside this crate.

pub mod api;
pub mod client;
pub mod error;
pub mod kv;
pub mod text;

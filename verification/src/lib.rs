//! A typed client for the DigitalOcean REST API.
//!
//! Requests are built as values of `Request<Method, Value>`: the two type
//! parameters say which HTTP verb the request stands for and what its answer
//! decodes to, so that only legal chains of operations type-check. A
//! `DigitalOcean` client turns a finished request into the HTTP call to make
//! and classifies what came back.

mod sealed;
pub mod text;
pub mod method;
pub mod payload;
pub mod request;
pub mod api;
pub mod error;
pub mod client;

pub use crate::client::DigitalOcean;
pub use crate::error::Error;

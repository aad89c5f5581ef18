//! A typed client library for the Anki-Connect JSON-RPC protocol.
//!
//! The core of the library is the response envelope decoder: every reply
//! from the server is a JSON object with exactly the two keys `error` and
//! `result`, and [`models::response_body::decode`] turns such a value into
//! a success or failure outcome, rejecting every other shape with a
//! distinct structural error.

pub mod client;
pub mod endpoints;
pub mod error;
pub mod json;
pub mod models;

pub use error::Error;

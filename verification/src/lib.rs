//! A small client library for the Wikipedia web API: it builds the request
//! address of a search, a page or a random-pages query, reads the JSON answer
//! and renders the lines to show. Sending the request is left to the caller.

pub mod command;
pub mod encoding;
pub mod json;
pub mod numbers;
pub mod query;
pub mod render;
pub mod request;
pub mod response;

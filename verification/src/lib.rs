//! Fetching and reporting the star count of a hosted repository.
//!
//! The library separates the one piece of business logic — turning a star
//! count into the sentence `"<identifier> has <count> stars"` — from the
//! transport that obtains the count. A [`reader::RepoReader`] supplies the
//! count; an [`analyser::RepoAnalyser`] holds an injected reader and formats
//! the sentence. The network-backed reader's pure half (request URL, response
//! interpretation) lives in [`fetch`]; the transport call itself is left to
//! the caller.

pub mod analyser;
pub mod fetch;
pub mod reader;
pub mod text;

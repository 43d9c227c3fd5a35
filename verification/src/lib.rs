//! Inbound-request rewriting core for a reverse proxy in front of a
//! conversational-AI HTTP API.
//!
//! The library decides, for each inbound request, how its headers and JSON
//! body must be transformed before forwarding: session cookie injection,
//! sentinel-token injection, and challenge-token acquisition.  External
//! network calls (the session cache, the sentinel endpoint, the challenge
//! broker, the upstream origin) are performed by the surrounding driver; the
//! rewriters here are step machines that emit the calls to make and consume
//! their results.
use vstd::prelude::*;

pub mod chat_model;
pub mod dashboard;
pub mod errors;
pub mod headers;
pub mod conversation;
pub mod jsonio;
pub mod laws;
pub mod rewrite;
pub mod sentinel;
pub mod strutil;

verus! {

/// Builds the URL a request is forwarded to: the upstream origin followed by
/// the request's path and query.
pub fn forward_url(origin: &str, path_and_query: &str) -> (r: String)
    ensures
        r@ == origin@ + path_and_query@,
{
    let mut url = origin.to_owned();
    url.append(path_and_query);
    url
}

} // verus!

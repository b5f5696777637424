//! Reconstruct a thread of self-replies on a Mastodon-compatible server.
//!
//! Starting from the URL of any post in a conversation, the library computes
//! the API requests needed to reach the conversation root and to collect the
//! author's chain of self-replies, and projects each post either to an embed
//! descriptor (a pair of URLs) or to a Markdown fragment.  All network I/O is
//! left to the caller: the walker is a step function from fetched data to the
//! next request, so every decision it takes is verified.

use vstd::prelude::*;

pub mod errors;
pub mod mastodon;
pub mod templates;
pub mod urls;
pub mod walker;

verus! {

use vstd::string::StringExecFns;

/// Body of the health endpoint: always the literal `OK`.
pub fn healthz() -> (r: String)
    ensures
        r@ == "OK"@,
{
    String::from_str("OK")
}

} // verus!

//! The decisions of the HTTP ingestion source. The listening and the reading
//! of request bodies stay with the caller; what is decided about a request —
//! whether it is accepted, and with which status it is answered — is decided
//! here.

use vstd::prelude::*;

verus! {

/// What the ingestion endpoint does with one request.
pub enum HttpDecision {
    /// The request is accepted: its body becomes one batch, and the request
    /// is answered only after that batch's transaction resolves.
    Accept,
    /// The request is refused with the given status, and no batch is made.
    Reject(u16),
}

/// The decision for one request, from what the endpoint reads of it: only a
/// POST (else status 405) to exactly the configured path (else status 404)
/// is accepted.
pub open spec fn spec_route(is_post: bool, url: Seq<char>, path: Seq<char>) -> HttpDecision {
    if !is_post {
        HttpDecision::Reject(405)
    } else if url != path {
        HttpDecision::Reject(404)
    } else {
        HttpDecision::Accept
    }
}

/// Decides one request: method first, then path.
pub fn http_route(is_post: bool, url: &str, path: &str) -> (d: HttpDecision)
    ensures
        d == spec_route(is_post, url@, path@),
{
    if !is_post {
        HttpDecision::Reject(405)
    } else if !crate::strutil::str_eq(url, path) {
        HttpDecision::Reject(404)
    } else {
        HttpDecision::Accept
    }
}

/// The status an accepted request is answered with once its batch resolved:
/// 201 on success, 500 on a failed transaction.
pub open spec fn spec_accept_status(delivered: bool) -> u16 {
    if delivered {
        201
    } else {
        500
    }
}

/// The status for a resolved, accepted request.
pub fn accept_status(delivered: bool) -> (s: u16)
    ensures
        s == spec_accept_status(delivered),
{
    if delivered {
        201
    } else {
        500
    }
}

} // verus!

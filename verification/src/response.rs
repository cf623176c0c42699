//! The plain response shape this core hands outward: an HTTP-style status
//! code and an already-rendered body.

use vstd::prelude::*;

verus! {

/// A fully-formed response: status code plus rendered body. Composing it into
/// a framework response type is the caller's concern.
#[derive(Debug, Clone, PartialEq, Eq)]
pub struct HttpResponse {
    pub status: u16,
    pub body: String,
}

} // verus!

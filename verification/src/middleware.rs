//! Request-decoration concerns shared by the transports. Attaching a fresh
//! request id to responses is transport plumbing; only the marker that
//! installs it is modelled here.

use vstd::prelude::*;

verus! {

/// The marker a transport installs to tag every response with a fresh
/// request id.
#[derive(Debug)]
pub struct RequestId;

impl RequestId {
    pub fn new() -> Self {
        RequestId
    }
}

} // verus!

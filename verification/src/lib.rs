//! The inbound gate of a federated messaging server: before any business
//! logic may act on a received activity, its actor is resolved to a trusted
//! local record through a bounded fetch path, its identifiers are anchored
//! to the actor's domain as an anti-spoofing measure, and its polymorphic
//! object field is read down to one canonical reference. Activities of a
//! kind the dispatcher does not recognize are diverted to a sink that always
//! fails.

use vstd::prelude::*;

pub mod activity;
pub mod domain;
pub mod error;
pub mod extract;
pub mod receive;
pub mod resolve;
pub mod uri;

verus! {

/// The number of outbound fetches one inbound activity may still trigger.
///
/// The counter is owned by the request-processing context and handed by
/// exclusive mutable access through every resolution call; each remote fetch
/// spends one unit, and an exhausted budget makes further fetches fail
/// instead of going to the network.
#[derive(Clone, Copy, PartialEq, Eq, Structural)]
pub struct FetchBudget {
    pub remaining: u32,
}

impl FetchBudget {
    pub fn new(remaining: u32) -> (r: FetchBudget)
        ensures
            r.remaining == remaining,
    {
        FetchBudget { remaining }
    }
}

} // verus!

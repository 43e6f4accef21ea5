//! What a node guarantees its clients.

use vstd::prelude::*;

use crate::config::Authz;
use crate::config::TransportSecurity;
use crate::storage::Durability;
use crate::types::Limits;
use crate::types::Pagination;

verus! {

/// Whether a resubmitted mutation is recognized.
#[derive(Clone, Copy, PartialEq, Eq, Structural, Debug)]
pub enum Dedup {
    /// It is not.
    Unsupported,
    /// It is, among a client's most recent requests.
    Bounded { window_requests: u32 },
}

/// How a watch resumes.
#[derive(Clone, Copy, PartialEq, Eq, Structural, Debug)]
pub enum WatchResumption {
    /// From the retained journal.
    Retained {
        /// Whether a client can see how far it was compacted.
        compact_revision_visible: bool,
    },
}

/// What a node guarantees.
#[derive(Clone, Copy, PartialEq, Eq, Structural, Debug)]
pub struct Capabilities {
    /// What survives a restart.
    pub durability: Durability,
    /// How watches resume.
    pub watch_resumption: WatchResumption,
    /// The authorization model in force.
    pub authz: Authz,
    /// How the client plane is protected.
    pub transport_security: TransportSecurity,
    /// Paginated lists.
    pub pagination: Pagination,
    /// Deduplication.
    pub dedup: Dedup,
}

/// What the limits in force say of deduplication.
pub open spec fn dedup_of(limits: Limits) -> Dedup {
    if limits.dedup.enabled {
        Dedup::Bounded { window_requests: limits.dedup.window_requests }
    } else {
        Dedup::Unsupported
    }
}

/// What the limits in force say of deduplication: reported from what is enforced, never from
/// what was built.
pub fn dedup_capability(limits: &Limits) -> (d: Dedup)
    ensures
        d == dedup_of(*limits),
{
    if limits.dedup.enabled {
        Dedup::Bounded { window_requests: limits.dedup.window_requests }
    } else {
        Dedup::Unsupported
    }
}

/// Deduplication is offered exactly where it is on, with the window it keeps.
pub proof fn deduplication_is_offered_where_it_is_on(limits: Limits)
    ensures
        dedup_of(limits) is Bounded <==> limits.dedup.enabled,
        dedup_of(limits) matches Dedup::Bounded { window_requests } ==> window_requests
            == limits.dedup.window_requests,
{
}

} // verus!

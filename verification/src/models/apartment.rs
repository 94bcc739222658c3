//! Apartments and requests to join them.

use vstd::prelude::*;

verus! {

/// Where a request to join an apartment stands.
#[derive(Debug, Clone, Copy, PartialEq, Eq, Structural)]
pub enum JoinRequestStatus {
    Pending,
    Approved,
    Rejected,
}

/// A chairman's decision on a request to join.
#[derive(Debug)]
pub struct ReviewJoinRequestRequest {
    pub approved: bool,
    pub rejection_reason: Option<String>,
}

} // verus!

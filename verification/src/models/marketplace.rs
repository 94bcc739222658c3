//! The residents' marketplace.

use vstd::prelude::*;

verus! {

/// Where a listing stands.
#[derive(Debug, Clone, Copy, PartialEq, Eq, Structural)]
pub enum ListingStatus {
    Draft,
    Active,
    Sold,
    Reserved,
    Archived,
}

impl Default for ListingStatus {
    fn default() -> (r: Self)
        ensures
            r == ListingStatus::Active,
    {
        ListingStatus::Active
    }
}

/// A message to the seller of a listing.
#[derive(Debug)]
pub struct SendMessageRequest {
    pub message: String,
}

} // verus!

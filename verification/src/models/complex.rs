//! Residential complexes.

use vstd::prelude::*;

verus! {

/// Where the registration of a complex stands.
#[derive(Debug, Clone, Copy, PartialEq, Eq, Structural)]
pub enum ComplexStatus {
    Pending,
    Active,
    Inactive,
}

impl Default for ComplexStatus {
    fn default() -> (r: Self)
        ensures
            r == ComplexStatus::Pending,
    {
        ComplexStatus::Pending
    }
}

/// What a complex offers its residents.
#[derive(Debug)]
pub struct ComplexAmenities {
    pub has_parking: bool,
    pub has_underground_parking: bool,
    pub has_playground: bool,
    pub has_gym: bool,
    pub has_concierge: bool,
    pub has_security: bool,
    pub has_cctv: bool,
}

/// A search for complexes.
#[derive(Debug)]
pub struct SearchComplexQuery {
    pub city: Option<String>,
    pub query: Option<String>,
    pub status: Option<String>,
}

/// A request to join a complex as the resident of an apartment.
#[derive(Debug)]
pub struct JoinComplexRequest {
    pub apartment_number: String,
    pub building: Option<String>,
    pub is_owner: bool,
}

} // verus!

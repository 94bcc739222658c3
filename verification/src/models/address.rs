//! Addresses.

use vstd::prelude::*;

verus! {

/// A search for addresses in a city.
#[derive(Debug)]
pub struct SearchAddressQuery {
    pub city: String,
    pub query: String,
}

} // verus!

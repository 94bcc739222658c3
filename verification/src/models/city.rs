//! Cities.

use vstd::prelude::*;

verus! {

/// A city as it is shown.
#[derive(Debug)]
pub struct CityResponse {
    pub id: String,
    pub name: String,
    pub name_kz: Option<String>,
    pub region: Option<String>,
}

} // verus!

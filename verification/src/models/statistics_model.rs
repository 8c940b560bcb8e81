//! Row shapes of the statistics queries.

use vstd::prelude::*;

verus! {

/// How many service instances carry a given service-type tag.
#[derive(Debug, Clone)]
pub struct ServiceTypeCount {
    pub service_type_name: String,
    pub total: i64,
}

/// How many visits a pet type has accumulated.
#[derive(Debug, Clone)]
pub struct PetVisitSummary {
    pub pet_type: String,
    pub total_visits: i64,
}

} // verus!

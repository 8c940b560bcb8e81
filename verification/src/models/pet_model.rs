//! The owner sub-view embedded into pet listings. The pet records themselves
//! carry a decimal weight and live with the boundary layer's pet store.

use vstd::prelude::*;

verus! {

/// The owner attributes joined into a pet listing.
#[derive(Debug, Clone)]
pub struct OwnerForPets {
    pub owner_name: String,
    pub owner_email: String,
}

} // verus!

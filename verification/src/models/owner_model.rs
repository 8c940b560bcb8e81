//! Owner records as read back from the owner table.

use vstd::prelude::*;

verus! {

/// A full owner record.
#[derive(Debug, Clone)]
pub struct OwnerModel {
    pub owner_id: String,
    pub owner_name: String,
    pub owner_email: String,
    pub owner_phone_number: String,
    pub owner_address: String,
}

/// An owner as shaped for list responses.
#[derive(Debug, Clone)]
pub struct OwnerModelResponse {
    pub owner_id: String,
    pub owner_name: String,
    pub owner_email: String,
    pub owner_phone_number: String,
    pub owner_address: String,
}

} // verus!

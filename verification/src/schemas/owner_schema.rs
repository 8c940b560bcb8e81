//! Request shapes for the owner records; the owner store itself lives at the
//! boundary, but its validation runs in the core.

use vstd::prelude::*;

verus! {

/// A new owner record.
#[derive(Debug, Clone)]
pub struct AddOwner {
    pub owner_name: String,
    pub owner_email: String,
    pub owner_phone_number: String,
    pub owner_address: String,
}

/// A partial update of an owner record. Absent fields are left untouched.
#[derive(Debug, Clone)]
pub struct UpdateOwner {
    pub owner_name: Option<String>,
    pub owner_email: Option<String>,
    pub owner_phone_number: Option<String>,
    pub owner_address: Option<String>,
}

} // verus!

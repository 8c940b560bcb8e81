//! Request shapes for the veterinarian records.

use vstd::prelude::*;

verus! {

/// A new veterinarian record.
#[derive(Debug, Clone)]
pub struct AddVet {
    pub vet_name: String,
    pub vet_email: String,
    pub vet_phone_number: String,
    pub vet_license_number: String,
}

/// A partial update of a veterinarian record. Absent fields are left
/// untouched.
#[derive(Debug, Clone)]
pub struct UpdateVet {
    pub vet_name: Option<String>,
    pub vet_email: Option<String>,
    pub vet_phone_number: Option<String>,
    pub vet_license_number: Option<String>,
}

} // verus!

//! Field validation run before any storage call: a supplied text field must
//! not be blank.

use vstd::prelude::*;

use crate::schemas::owner_schema::UpdateOwner;
use crate::schemas::vet_schema::UpdateVet;
use crate::utils::text::{is_blank, str_is_blank};

verus! {

/// An optional field passes unless it is present and blank; a blank present
/// field fails with the supplied message.
pub fn validate_field(field: &Option<String>, error_message: &str) -> (r: Result<(), String>)
    ensures
        r is Err <==> (field is Some && is_blank(field->0@)),
        r is Err ==> r->Err_0@ == error_message@,
{
    if let Some(field) = field {
        if str_is_blank(field.as_str()) {
            return Err(error_message.to_owned());
        }
    }
    Ok(())
}

/// Whether a partial owner update passes validation: no supplied field may be
/// blank.
pub open spec fn owner_fields_valid(body: UpdateOwner) -> bool {
    &&& body.owner_name is Some ==> !is_blank(body.owner_name->0@)
    &&& body.owner_email is Some ==> !is_blank(body.owner_email->0@)
    &&& body.owner_phone_number is Some ==> !is_blank(body.owner_phone_number->0@)
    &&& body.owner_address is Some ==> !is_blank(body.owner_address->0@)
}

/// Whether an optional field is present and blank.
pub open spec fn blank_some(field: Option<String>) -> bool {
    field is Some && is_blank(field->0@)
}

/// Validates a partial owner update, reporting the first blank field in
/// declaration order.
pub fn validate_owner_fields(body: &UpdateOwner) -> (r: Result<(), String>)
    ensures
        r is Ok <==> owner_fields_valid(*body),
        blank_some(body.owner_name) ==> r->Err_0@ == "Owner name cannot be empty"@,
        !blank_some(body.owner_name) && blank_some(body.owner_email) ==> r->Err_0@
            == "Owner email cannot be empty"@,
        !blank_some(body.owner_name) && !blank_some(body.owner_email) && blank_some(
            body.owner_phone_number,
        ) ==> r->Err_0@ == "Owner phone number cannot be empty"@,
        !blank_some(body.owner_name) && !blank_some(body.owner_email) && !blank_some(
            body.owner_phone_number,
        ) && blank_some(body.owner_address) ==> r->Err_0@ == "Owner address cannot be empty"@,
{
    validate_field(&body.owner_name, "Owner name cannot be empty")?;
    validate_field(&body.owner_email, "Owner email cannot be empty")?;
    validate_field(&body.owner_phone_number, "Owner phone number cannot be empty")?;
    validate_field(&body.owner_address, "Owner address cannot be empty")?;
    Ok(())
}

/// Whether a partial veterinarian update passes validation: no supplied field
/// may be blank.
pub open spec fn vet_fields_valid(body: UpdateVet) -> bool {
    &&& body.vet_name is Some ==> !is_blank(body.vet_name->0@)
    &&& body.vet_email is Some ==> !is_blank(body.vet_email->0@)
    &&& body.vet_phone_number is Some ==> !is_blank(body.vet_phone_number->0@)
    &&& body.vet_license_number is Some ==> !is_blank(body.vet_license_number->0@)
}

/// Validates a partial veterinarian update, reporting the first blank field
/// in declaration order.
pub fn validate_vet_fields(body: &UpdateVet) -> (r: Result<(), String>)
    ensures
        r is Ok <==> vet_fields_valid(*body),
        blank_some(body.vet_name) ==> r->Err_0@ == "Vet name cannot be empty"@,
        !blank_some(body.vet_name) && blank_some(body.vet_email) ==> r->Err_0@
            == "Vet email cannot be empty"@,
        !blank_some(body.vet_name) && !blank_some(body.vet_email) && blank_some(
            body.vet_phone_number,
        ) ==> r->Err_0@ == "Vet phone number cannot be empty"@,
        !blank_some(body.vet_name) && !blank_some(body.vet_email) && !blank_some(
            body.vet_phone_number,
        ) && blank_some(body.vet_license_number) ==> r->Err_0@
            == "Vet license number cannot be empty"@,
{
    validate_field(&body.vet_name, "Vet name cannot be empty")?;
    validate_field(&body.vet_email, "Vet email cannot be empty")?;
    validate_field(&body.vet_phone_number, "Vet phone number cannot be empty")?;
    validate_field(&body.vet_license_number, "Vet license number cannot be empty")?;
    Ok(())
}

} // verus!

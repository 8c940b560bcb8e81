//! Veterinarian records. `VetModel` doubles as the row shape of the
//! veterinarian table that the aggregate store reads by foreign key.

use vstd::prelude::*;

verus! {

/// A full veterinarian record, one per row of the veterinarian table.
#[derive(Debug, Clone)]
pub struct VetModel {
    pub vet_id: String,
    pub vet_name: String,
    pub vet_email: String,
    pub vet_phone_number: String,
    pub vet_license_number: String,
}

#[verifier::ext_equal]
pub ghost struct VetModelV {
    pub vet_id: Seq<char>,
    pub vet_name: Seq<char>,
    pub vet_email: Seq<char>,
    pub vet_phone_number: Seq<char>,
    pub vet_license_number: Seq<char>,
}

impl View for VetModel {
    type V = VetModelV;

    open spec fn view(&self) -> VetModelV {
        VetModelV {
            vet_id: self.vet_id@,
            vet_name: self.vet_name@,
            vet_email: self.vet_email@,
            vet_phone_number: self.vet_phone_number@,
            vet_license_number: self.vet_license_number@,
        }
    }
}

impl DeepView for VetModel {
    type V = VetModelV;

    open spec fn deep_view(&self) -> VetModelV {
        self.view()
    }
}

/// The id/name pair used by selection lists.
#[derive(Debug, Clone)]
pub struct GetVets {
    pub vet_id: String,
    pub vet_name: String,
}

/// A veterinarian as shaped for list responses.
#[derive(Debug, Clone)]
pub struct VetModelResponse {
    pub vet_id: String,
    pub vet_name: String,
    pub vet_email: String,
    pub vet_phone_number: String,
    pub vet_license_number: String,
}

/// The veterinarian sub-view embedded into preventive-care and surgery
/// results: every identifying attribute but the row id.
#[derive(Debug, Clone)]
pub struct VetModelForService {
    pub vet_name: String,
    pub vet_email: String,
    pub vet_phone_number: String,
    pub vet_license_number: String,
}

#[verifier::ext_equal]
pub ghost struct VetModelForServiceV {
    pub vet_name: Seq<char>,
    pub vet_email: Seq<char>,
    pub vet_phone_number: Seq<char>,
    pub vet_license_number: Seq<char>,
}

impl View for VetModelForService {
    type V = VetModelForServiceV;

    open spec fn view(&self) -> VetModelForServiceV {
        VetModelForServiceV {
            vet_name: self.vet_name@,
            vet_email: self.vet_email@,
            vet_phone_number: self.vet_phone_number@,
            vet_license_number: self.vet_license_number@,
        }
    }
}

impl DeepView for VetModelForService {
    type V = VetModelForServiceV;

    open spec fn deep_view(&self) -> VetModelForServiceV {
        self.view()
    }
}

} // verus!

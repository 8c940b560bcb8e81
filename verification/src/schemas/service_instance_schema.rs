//! Request and response shapes for the service-instance aggregate.
//!
//! Calendar dates travel through the core as plain `String` values in
//! `YYYY-MM-DD` form; parsing and formatting belong to the boundary layer.
//! Each type that appears in a contract has a spec-level mirror (suffixed
//! `V`) holding sequences of characters in place of strings, reached through
//! `View` / `DeepView`.

use vstd::prelude::*;

verus! {

/// A fully materialized service instance as returned by a creation call,
/// child collections included. An absent child collection means "none were
/// supplied", never "the list happened to be empty".
#[derive(Debug, Clone)]
pub struct ServiceInstance {
    pub service_instance_id: String,
    pub service_date: String,
    pub service_type: Vec<String>,
    pub service_reason: String,
    pub general_diagnosis: String,
    pub requires_followup: bool,
    pub followup_date: Option<String>,
    pub pet_id: String,
    pub grooming: Option<Vec<Grooming>>,
    pub preventive_care: Option<Vec<PreventiveCare>>,
    pub surgery: Option<Surgery>,
}

#[verifier::ext_equal]
pub ghost struct ServiceInstanceV {
    pub service_instance_id: Seq<char>,
    pub service_date: Seq<char>,
    pub service_type: Seq<Seq<char>>,
    pub service_reason: Seq<char>,
    pub general_diagnosis: Seq<char>,
    pub requires_followup: bool,
    pub followup_date: Option<Seq<char>>,
    pub pet_id: Seq<char>,
    pub grooming: Option<Seq<GroomingV>>,
    pub preventive_care: Option<Seq<PreventiveCareV>>,
    pub surgery: Option<SurgeryV>,
}

impl View for ServiceInstance {
    type V = ServiceInstanceV;

    open spec fn view(&self) -> ServiceInstanceV {
        ServiceInstanceV {
            service_instance_id: self.service_instance_id@,
            service_date: self.service_date@,
            service_type: self.service_type.deep_view(),
            service_reason: self.service_reason@,
            general_diagnosis: self.general_diagnosis@,
            requires_followup: self.requires_followup,
            followup_date: self.followup_date.deep_view(),
            pet_id: self.pet_id@,
            grooming: self.grooming.deep_view(),
            preventive_care: self.preventive_care.deep_view(),
            surgery: self.surgery.deep_view(),
        }
    }
}

impl DeepView for ServiceInstance {
    type V = ServiceInstanceV;

    open spec fn deep_view(&self) -> ServiceInstanceV {
        self.view()
    }
}

/// The payload of a creation request, one field per argument of the
/// aggregate-create operation (the instance id and date are assigned by the
/// caller of the store, not carried here).
#[derive(Debug, Clone)]
pub struct AddServiceInstance {
    pub service_type: Vec<String>,
    pub service_reason: String,
    pub general_diagnosis: String,
    pub requires_followup: bool,
    pub followup_date: Option<String>,
    pub grooming_type: Option<Vec<String>>,
    pub preventive_care: Option<AddPreventiveCare>,
    pub surgery: Option<AddSurgery>,
    pub pet_id: String,
}

/// A partial update of a service instance's scalar fields, plus an optional
/// full replacement of its tag set. Absent fields are left untouched.
#[derive(Debug, Clone)]
pub struct UpdateServiceInstance {
    pub service_date: Option<String>,
    pub service_type: Option<Vec<String>>,
    pub service_reason: Option<String>,
    pub general_diagnosis: Option<String>,
    pub requires_followup: Option<bool>,
    pub followup_date: Option<String>,
}

#[verifier::ext_equal]
pub ghost struct UpdateServiceInstanceV {
    pub service_date: Option<Seq<char>>,
    pub service_type: Option<Seq<Seq<char>>>,
    pub service_reason: Option<Seq<char>>,
    pub general_diagnosis: Option<Seq<char>>,
    pub requires_followup: Option<bool>,
    pub followup_date: Option<Seq<char>>,
}

impl View for UpdateServiceInstance {
    type V = UpdateServiceInstanceV;

    open spec fn view(&self) -> UpdateServiceInstanceV {
        UpdateServiceInstanceV {
            service_date: self.service_date.deep_view(),
            service_type: self.service_type.deep_view(),
            service_reason: self.service_reason.deep_view(),
            general_diagnosis: self.general_diagnosis.deep_view(),
            requires_followup: self.requires_followup,
            followup_date: self.followup_date.deep_view(),
        }
    }
}

impl DeepView for UpdateServiceInstance {
    type V = UpdateServiceInstanceV;

    open spec fn deep_view(&self) -> UpdateServiceInstanceV {
        self.view()
    }
}

/// One grooming entry as echoed back by a creation call; the id is the
/// store-assigned row id.
#[derive(Debug, Clone)]
pub struct Grooming {
    pub grooming_id: Option<i32>,
    pub grooming_type: String,
    pub service_instance_id: String,
}

#[verifier::ext_equal]
pub ghost struct GroomingV {
    pub grooming_id: Option<i32>,
    pub grooming_type: Seq<char>,
    pub service_instance_id: Seq<char>,
}

impl View for Grooming {
    type V = GroomingV;

    open spec fn view(&self) -> GroomingV {
        GroomingV {
            grooming_id: self.grooming_id,
            grooming_type: self.grooming_type@,
            service_instance_id: self.service_instance_id@,
        }
    }
}

impl DeepView for Grooming {
    type V = GroomingV;

    open spec fn deep_view(&self) -> GroomingV {
        self.view()
    }
}

/// Grooming entries to append to an existing instance.
#[derive(Debug, Clone)]
pub struct AddGroomingToInstance {
    pub grooming_type: Vec<String>,
}

/// One preventive-care entry as echoed back by a creation call.
#[derive(Debug, Clone)]
pub struct PreventiveCare {
    pub preventive_care_id: Option<i32>,
    pub treatment: String,
    pub vet_id: String,
    pub service_instance_id: String,
}

#[verifier::ext_equal]
pub ghost struct PreventiveCareV {
    pub preventive_care_id: Option<i32>,
    pub treatment: Seq<char>,
    pub vet_id: Seq<char>,
    pub service_instance_id: Seq<char>,
}

impl View for PreventiveCare {
    type V = PreventiveCareV;

    open spec fn view(&self) -> PreventiveCareV {
        PreventiveCareV {
            preventive_care_id: self.preventive_care_id,
            treatment: self.treatment@,
            vet_id: self.vet_id@,
            service_instance_id: self.service_instance_id@,
        }
    }
}

impl DeepView for PreventiveCare {
    type V = PreventiveCareV;

    open spec fn deep_view(&self) -> PreventiveCareV {
        self.view()
    }
}

/// Preventive-care rows to insert, already bound to an instance.
#[derive(Debug, Clone)]
pub struct InsertPreventiveCare {
    pub treatment: Vec<String>,
    pub vet_id: String,
    pub service_instance_id: String,
}

/// A surgery as echoed back by a creation call.
#[derive(Debug, Clone)]
pub struct Surgery {
    pub surgery_id: Option<i32>,
    pub surgery_name: String,
    pub anesthesia_used: String,
    pub veterinarian_diagnosis: String,
    pub complications: String,
    pub outcome: String,
    pub service_instance_id: String,
    pub vet_id: String,
}

#[verifier::ext_equal]
pub ghost struct SurgeryV {
    pub surgery_id: Option<i32>,
    pub surgery_name: Seq<char>,
    pub anesthesia_used: Seq<char>,
    pub veterinarian_diagnosis: Seq<char>,
    pub complications: Seq<char>,
    pub outcome: Seq<char>,
    pub service_instance_id: Seq<char>,
    pub vet_id: Seq<char>,
}

impl View for Surgery {
    type V = SurgeryV;

    open spec fn view(&self) -> SurgeryV {
        SurgeryV {
            surgery_id: self.surgery_id,
            surgery_name: self.surgery_name@,
            anesthesia_used: self.anesthesia_used@,
            veterinarian_diagnosis: self.veterinarian_diagnosis@,
            complications: self.complications@,
            outcome: self.outcome@,
            service_instance_id: self.service_instance_id@,
            vet_id: self.vet_id@,
        }
    }
}

impl DeepView for Surgery {
    type V = SurgeryV;

    open spec fn deep_view(&self) -> SurgeryV {
        self.view()
    }
}

/// The surgery part of a creation request. The veterinarian's diagnosis is
/// echoed back in the returned value but is not one of the columns written by
/// the aggregate create; it can be set later through a surgery update.
#[derive(Debug, Clone)]
pub struct AddSurgery {
    pub surgery_name: String,
    pub anesthesia_used: String,
    pub veterinarian_diagnosis: String,
    pub complications: String,
    pub outcome: String,
    pub vet_id: String,
}

#[verifier::ext_equal]
pub ghost struct AddSurgeryV {
    pub surgery_name: Seq<char>,
    pub anesthesia_used: Seq<char>,
    pub veterinarian_diagnosis: Seq<char>,
    pub complications: Seq<char>,
    pub outcome: Seq<char>,
    pub vet_id: Seq<char>,
}

impl View for AddSurgery {
    type V = AddSurgeryV;

    open spec fn view(&self) -> AddSurgeryV {
        AddSurgeryV {
            surgery_name: self.surgery_name@,
            anesthesia_used: self.anesthesia_used@,
            veterinarian_diagnosis: self.veterinarian_diagnosis@,
            complications: self.complications@,
            outcome: self.outcome@,
            vet_id: self.vet_id@,
        }
    }
}

impl DeepView for AddSurgery {
    type V = AddSurgeryV;

    open spec fn deep_view(&self) -> AddSurgeryV {
        self.view()
    }
}

/// A partial update of a surgery row. Absent fields are left untouched.
#[derive(Debug, Clone)]
pub struct UpdateSurgery {
    pub surgery_name: Option<String>,
    pub anesthesia_used: Option<String>,
    pub veterinarian_diagnosis: Option<String>,
    pub complications: Option<String>,
    pub outcome: Option<String>,
    pub vet_id: Option<String>,
}

#[verifier::ext_equal]
pub ghost struct UpdateSurgeryV {
    pub surgery_name: Option<Seq<char>>,
    pub anesthesia_used: Option<Seq<char>>,
    pub veterinarian_diagnosis: Option<Seq<char>>,
    pub complications: Option<Seq<char>>,
    pub outcome: Option<Seq<char>>,
    pub vet_id: Option<Seq<char>>,
}

impl View for UpdateSurgery {
    type V = UpdateSurgeryV;

    open spec fn view(&self) -> UpdateSurgeryV {
        UpdateSurgeryV {
            surgery_name: self.surgery_name.deep_view(),
            anesthesia_used: self.anesthesia_used.deep_view(),
            veterinarian_diagnosis: self.veterinarian_diagnosis.deep_view(),
            complications: self.complications.deep_view(),
            outcome: self.outcome.deep_view(),
            vet_id: self.vet_id.deep_view(),
        }
    }
}

impl DeepView for UpdateSurgery {
    type V = UpdateSurgeryV;

    open spec fn deep_view(&self) -> UpdateSurgeryV {
        self.view()
    }
}

/// The preventive-care part of a creation request: every treatment becomes
/// its own row, all sharing the supplied veterinarian.
#[derive(Debug, Clone)]
pub struct AddPreventiveCare {
    pub treatment: Vec<String>,
    pub vet_id: String,
}

#[verifier::ext_equal]
pub ghost struct AddPreventiveCareV {
    pub treatment: Seq<Seq<char>>,
    pub vet_id: Seq<char>,
}

impl View for AddPreventiveCare {
    type V = AddPreventiveCareV;

    open spec fn view(&self) -> AddPreventiveCareV {
        AddPreventiveCareV { treatment: self.treatment.deep_view(), vet_id: self.vet_id@ }
    }
}

impl DeepView for AddPreventiveCare {
    type V = AddPreventiveCareV;

    open spec fn deep_view(&self) -> AddPreventiveCareV {
        self.view()
    }
}

/// Preventive-care treatments to append to an existing instance. The
/// embedded instance id is informational; the store binds the rows to the
/// instance named in the call.
#[derive(Debug, Clone)]
pub struct AddPreventiveCareToExisting {
    pub treatment: Vec<String>,
    pub vet_id: String,
    pub service_instance_id: String,
}

#[verifier::ext_equal]
pub ghost struct AddPreventiveCareToExistingV {
    pub treatment: Seq<Seq<char>>,
    pub vet_id: Seq<char>,
    pub service_instance_id: Seq<char>,
}

impl View for AddPreventiveCareToExisting {
    type V = AddPreventiveCareToExistingV;

    open spec fn view(&self) -> AddPreventiveCareToExistingV {
        AddPreventiveCareToExistingV {
            treatment: self.treatment.deep_view(),
            vet_id: self.vet_id@,
            service_instance_id: self.service_instance_id@,
        }
    }
}

impl DeepView for AddPreventiveCareToExisting {
    type V = AddPreventiveCareToExistingV;

    open spec fn deep_view(&self) -> AddPreventiveCareToExistingV {
        self.view()
    }
}

} // verus!

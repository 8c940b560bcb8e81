//! The row shapes of the five tables the aggregate store owns or writes.
//! Each has a spec-level mirror used by the store's abstract model.

use vstd::prelude::*;

verus! {

/// One row of the service-instance table.
#[derive(Debug, Clone)]
pub struct ServiceInstanceRow {
    pub service_instance_id: String,
    pub service_date: String,
    pub service_reason: String,
    pub general_diagnosis: String,
    pub requires_followup: bool,
    pub followup_date: Option<String>,
    pub pet_id: String,
}

#[verifier::ext_equal]
pub ghost struct ServiceInstanceRowV {
    pub service_instance_id: Seq<char>,
    pub service_date: Seq<char>,
    pub service_reason: Seq<char>,
    pub general_diagnosis: Seq<char>,
    pub requires_followup: bool,
    pub followup_date: Option<Seq<char>>,
    pub pet_id: Seq<char>,
}

impl View for ServiceInstanceRow {
    type V = ServiceInstanceRowV;

    open spec fn view(&self) -> ServiceInstanceRowV {
        ServiceInstanceRowV {
            service_instance_id: self.service_instance_id@,
            service_date: self.service_date@,
            service_reason: self.service_reason@,
            general_diagnosis: self.general_diagnosis@,
            requires_followup: self.requires_followup,
            followup_date: self.followup_date.deep_view(),
            pet_id: self.pet_id@,
        }
    }
}

impl DeepView for ServiceInstanceRow {
    type V = ServiceInstanceRowV;

    open spec fn deep_view(&self) -> ServiceInstanceRowV {
        self.view()
    }
}

/// One row of the service-type table: one tag bound to one instance.
#[derive(Debug, Clone)]
pub struct ServiceTypeRow {
    pub service_type_name: String,
    pub service_instance_id: String,
}

#[verifier::ext_equal]
pub ghost struct ServiceTypeRowV {
    pub service_type_name: Seq<char>,
    pub service_instance_id: Seq<char>,
}

impl View for ServiceTypeRow {
    type V = ServiceTypeRowV;

    open spec fn view(&self) -> ServiceTypeRowV {
        ServiceTypeRowV {
            service_type_name: self.service_type_name@,
            service_instance_id: self.service_instance_id@,
        }
    }
}

impl DeepView for ServiceTypeRow {
    type V = ServiceTypeRowV;

    open spec fn deep_view(&self) -> ServiceTypeRowV {
        self.view()
    }
}

/// One row of the grooming table.
#[derive(Debug, Clone)]
pub struct GroomingRow {
    pub grooming_id: i32,
    pub grooming_type: String,
    pub service_instance_id: String,
}

#[verifier::ext_equal]
pub ghost struct GroomingRowV {
    pub grooming_id: i32,
    pub grooming_type: Seq<char>,
    pub service_instance_id: Seq<char>,
}

impl View for GroomingRow {
    type V = GroomingRowV;

    open spec fn view(&self) -> GroomingRowV {
        GroomingRowV {
            grooming_id: self.grooming_id,
            grooming_type: self.grooming_type@,
            service_instance_id: self.service_instance_id@,
        }
    }
}

impl DeepView for GroomingRow {
    type V = GroomingRowV;

    open spec fn deep_view(&self) -> GroomingRowV {
        self.view()
    }
}

/// One row of the preventive-care table.
#[derive(Debug, Clone)]
pub struct PreventiveCareRow {
    pub preventive_care_id: i32,
    pub treatment: String,
    pub vet_id: String,
    pub service_instance_id: String,
}

#[verifier::ext_equal]
pub ghost struct PreventiveCareRowV {
    pub preventive_care_id: i32,
    pub treatment: Seq<char>,
    pub vet_id: Seq<char>,
    pub service_instance_id: Seq<char>,
}

impl View for PreventiveCareRow {
    type V = PreventiveCareRowV;

    open spec fn view(&self) -> PreventiveCareRowV {
        PreventiveCareRowV {
            preventive_care_id: self.preventive_care_id,
            treatment: self.treatment@,
            vet_id: self.vet_id@,
            service_instance_id: self.service_instance_id@,
        }
    }
}

impl DeepView for PreventiveCareRow {
    type V = PreventiveCareRowV;

    open spec fn deep_view(&self) -> PreventiveCareRowV {
        self.view()
    }
}

/// One row of the surgery table. Only the name is mandatory at insert time;
/// the other attributes are nullable columns.
#[derive(Debug, Clone)]
pub struct SurgeryRow {
    pub surgery_id: i32,
    pub surgery_name: String,
    pub anesthesia_used: Option<String>,
    pub veterinarian_diagnosis: Option<String>,
    pub complications: Option<String>,
    pub outcome: Option<String>,
    pub service_instance_id: String,
    pub vet_id: String,
}

#[verifier::ext_equal]
pub ghost struct SurgeryRowV {
    pub surgery_id: i32,
    pub surgery_name: Seq<char>,
    pub anesthesia_used: Option<Seq<char>>,
    pub veterinarian_diagnosis: Option<Seq<char>>,
    pub complications: Option<Seq<char>>,
    pub outcome: Option<Seq<char>>,
    pub service_instance_id: Seq<char>,
    pub vet_id: Seq<char>,
}

impl View for SurgeryRow {
    type V = SurgeryRowV;

    open spec fn view(&self) -> SurgeryRowV {
        SurgeryRowV {
            surgery_id: self.surgery_id,
            surgery_name: self.surgery_name@,
            anesthesia_used: self.anesthesia_used.deep_view(),
            veterinarian_diagnosis: self.veterinarian_diagnosis.deep_view(),
            complications: self.complications.deep_view(),
            outcome: self.outcome.deep_view(),
            service_instance_id: self.service_instance_id@,
            vet_id: self.vet_id@,
        }
    }
}

impl DeepView for SurgeryRow {
    type V = SurgeryRowV;

    open spec fn deep_view(&self) -> SurgeryRowV {
        self.view()
    }
}

} // verus!

//! Read-side shapes of the service-instance aggregate: what the detail and
//! history operations return.

use vstd::prelude::*;

use crate::models::vet_model::{VetModelForService, VetModelForServiceV};

verus! {

/// The fully assembled detail view of one service instance. Empty child
/// collections are collapsed to `None`, mirroring the create path.
#[derive(Debug, Clone)]
pub struct ServiceInstanceModel {
    pub service_instance_id: String,
    pub service_date: String,
    pub service_type: Vec<String>,
    pub service_reason: String,
    pub general_diagnosis: String,
    pub requires_followup: bool,
    pub pet_id: String,
    pub followup_date: Option<String>,
    pub grooming: Option<Vec<GroomingModel>>,
    pub preventive_care: Option<Vec<PreventiveCareModel>>,
    pub surgery: Option<SurgeryModel>,
}

#[verifier::ext_equal]
pub ghost struct ServiceInstanceModelV {
    pub service_instance_id: Seq<char>,
    pub service_date: Seq<char>,
    pub service_type: Seq<Seq<char>>,
    pub service_reason: Seq<char>,
    pub general_diagnosis: Seq<char>,
    pub requires_followup: bool,
    pub pet_id: Seq<char>,
    pub followup_date: Option<Seq<char>>,
    pub grooming: Option<Seq<GroomingModelV>>,
    pub preventive_care: Option<Seq<PreventiveCareModelV>>,
    pub surgery: Option<SurgeryModelV>,
}

impl View for ServiceInstanceModel {
    type V = ServiceInstanceModelV;

    open spec fn view(&self) -> ServiceInstanceModelV {
        ServiceInstanceModelV {
            service_instance_id: self.service_instance_id@,
            service_date: self.service_date@,
            service_type: self.service_type.deep_view(),
            service_reason: self.service_reason@,
            general_diagnosis: self.general_diagnosis@,
            requires_followup: self.requires_followup,
            pet_id: self.pet_id@,
            followup_date: self.followup_date.deep_view(),
            grooming: self.grooming.deep_view(),
            preventive_care: self.preventive_care.deep_view(),
            surgery: self.surgery.deep_view(),
        }
    }
}

impl DeepView for ServiceInstanceModel {
    type V = ServiceInstanceModelV;

    open spec fn deep_view(&self) -> ServiceInstanceModelV {
        self.view()
    }
}

/// One grooming entry of the detail view.
#[derive(Debug, Clone)]
pub struct GroomingModel {
    pub grooming_id: i32,
    pub grooming_type: String,
}

#[verifier::ext_equal]
pub ghost struct GroomingModelV {
    pub grooming_id: i32,
    pub grooming_type: Seq<char>,
}

impl View for GroomingModel {
    type V = GroomingModelV;

    open spec fn view(&self) -> GroomingModelV {
        GroomingModelV { grooming_id: self.grooming_id, grooming_type: self.grooming_type@ }
    }
}

impl DeepView for GroomingModel {
    type V = GroomingModelV;

    open spec fn deep_view(&self) -> GroomingModelV {
        self.view()
    }
}

/// One preventive-care entry of the detail view, with the referenced
/// veterinarian embedded.
#[derive(Debug, Clone)]
pub struct PreventiveCareModel {
    pub preventive_care_id: i32,
    pub treatment: String,
    pub vet: VetModelForService,
}

#[verifier::ext_equal]
pub ghost struct PreventiveCareModelV {
    pub preventive_care_id: i32,
    pub treatment: Seq<char>,
    pub vet: VetModelForServiceV,
}

impl View for PreventiveCareModel {
    type V = PreventiveCareModelV;

    open spec fn view(&self) -> PreventiveCareModelV {
        PreventiveCareModelV {
            preventive_care_id: self.preventive_care_id,
            treatment: self.treatment@,
            vet: self.vet@,
        }
    }
}

impl DeepView for PreventiveCareModel {
    type V = PreventiveCareModelV;

    open spec fn deep_view(&self) -> PreventiveCareModelV {
        self.view()
    }
}

/// The surgery of the detail view, with the referenced veterinarian
/// embedded.
#[derive(Debug, Clone)]
pub struct SurgeryModel {
    pub surgery_id: i32,
    pub surgery_name: String,
    pub veterinarian_diagnosis: Option<String>,
    pub anesthesia_used: Option<String>,
    pub complications: Option<String>,
    pub outcome: Option<String>,
    pub vet: VetModelForService,
}

#[verifier::ext_equal]
pub ghost struct SurgeryModelV {
    pub surgery_id: i32,
    pub surgery_name: Seq<char>,
    pub veterinarian_diagnosis: Option<Seq<char>>,
    pub anesthesia_used: Option<Seq<char>>,
    pub complications: Option<Seq<char>>,
    pub outcome: Option<Seq<char>>,
    pub vet: VetModelForServiceV,
}

impl View for SurgeryModel {
    type V = SurgeryModelV;

    open spec fn view(&self) -> SurgeryModelV {
        SurgeryModelV {
            surgery_id: self.surgery_id,
            surgery_name: self.surgery_name@,
            veterinarian_diagnosis: self.veterinarian_diagnosis.deep_view(),
            anesthesia_used: self.anesthesia_used.deep_view(),
            complications: self.complications.deep_view(),
            outcome: self.outcome.deep_view(),
            vet: self.vet@,
        }
    }
}

impl DeepView for SurgeryModel {
    type V = SurgeryModelV;

    open spec fn deep_view(&self) -> SurgeryModelV {
        self.view()
    }
}

/// One entry of a pet's service history: the instance's scalar fields with
/// all of its tags gathered into one list.
#[derive(Debug, Clone)]
pub struct GetServicesHistoryModel {
    pub service_instance_id: String,
    pub service_date: String,
    pub service_type: Vec<String>,
    pub service_reason: String,
    pub general_diagnosis: String,
    pub requires_followup: bool,
    pub followup_date: Option<String>,
}

#[verifier::ext_equal]
pub ghost struct GetServicesHistoryModelV {
    pub service_instance_id: Seq<char>,
    pub service_date: Seq<char>,
    pub service_type: Seq<Seq<char>>,
    pub service_reason: Seq<char>,
    pub general_diagnosis: Seq<char>,
    pub requires_followup: bool,
    pub followup_date: Option<Seq<char>>,
}

impl View for GetServicesHistoryModel {
    type V = GetServicesHistoryModelV;

    open spec fn view(&self) -> GetServicesHistoryModelV {
        GetServicesHistoryModelV {
            service_instance_id: self.service_instance_id@,
            service_date: self.service_date@,
            service_type: self.service_type.deep_view(),
            service_reason: self.service_reason@,
            general_diagnosis: self.general_diagnosis@,
            requires_followup: self.requires_followup,
            followup_date: self.followup_date.deep_view(),
        }
    }
}

impl DeepView for GetServicesHistoryModel {
    type V = GetServicesHistoryModelV;

    open spec fn deep_view(&self) -> GetServicesHistoryModelV {
        self.view()
    }
}

/// The pet sub-view used by instance listings.
#[derive(Debug, Clone)]
pub struct SimplePetModel {
    pub pet_id: String,
    pub pet_name: String,
    pub pet_type: String,
    pub pet_breed: String,
    pub owner_name: String,
}

/// One instance of a cross-pet listing, with its pet embedded.
#[derive(Debug, Clone)]
pub struct AllServiceInstanceModel {
    pub service_instance_id: String,
    pub service_date: String,
    pub service_type: Vec<String>,
    pub pet: SimplePetModel,
}

} // verus!

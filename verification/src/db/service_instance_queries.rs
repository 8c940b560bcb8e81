//! The service-instance aggregate store: the five tables it owns or writes,
//! held as an in-memory relational state, with every operation's effect
//! pinned to the abstract model in [`crate::db::model`]. The boundary layer
//! mirrors these operations onto the relational database with the statement
//! templates of [`crate::db::statements`]; this store is the semantics those
//! statements are held to.

use vstd::prelude::*;

use crate::db::error::StoreError;
use crate::db::model::{
    apply_instance_update, apply_surgery_update, care_count, care_model_of, care_models_from,
    care_rows_of, care_rows_of_req, create_conflict, create_ok, create_post, create_result,
    detail_ok, empty_db, find_vet, grooming_count, grooming_models_of, grooming_rows_of_req,
    has_care, has_grooming, has_instance, has_pet, has_surgery, has_vet, history_of,
    instance_detail, instance_row_of, instances_sorted, lemma_find_instance_exists,
    lemma_find_vet_exists, lemma_sorted_find_instance, page_of, replace_tags, surgery_count,
    surgery_model_of, surgery_models_from, surgery_models_of, surgery_rows_of,
    surgery_rows_of_req, tag_names_of, tag_rows_except, tag_rows_of_req, vet_service_view, wf_db,
    CreateRequestV, DbModel,
};
use crate::db::rows::{
    GroomingRow, PreventiveCareRow, ServiceInstanceRow, ServiceTypeRow, SurgeryRow,
};
use crate::models::vet_model::VetModel;
use crate::db::model::{
    history_entry_of, history_of_prefix, lemma_cares_append_wf, lemma_groomings_append_wf,
    pet_instances_of,
};
use crate::models::service_instance_model::GetServicesHistoryModel;
use crate::schemas::service_instance_schema::{
    AddPreventiveCare, AddPreventiveCareToExisting, AddSurgery, Grooming, PreventiveCare,
    ServiceInstance, Surgery, UpdateServiceInstance, UpdateSurgery,
};
use vstd::pervasive::VecAdditionalExecFns;
use crate::utils::text::{
    lemma_str_lt_connected, lemma_str_lt_irreflexive, lemma_str_lt_transitive, str_compare_lt,
    str_lt,
};

verus! {

/// The aggregate store. The instance table is kept strictly ascending by
/// instance id; the three child tables carry store-assigned integer ids
/// handed out by the counters. The veterinarian and pet tables are the
/// externally owned records the aggregate reads by foreign key.
pub struct ServiceInstanceQueries {
    pub instances: Vec<ServiceInstanceRow>,
    pub service_types: Vec<ServiceTypeRow>,
    pub groomings: Vec<GroomingRow>,
    pub preventive_cares: Vec<PreventiveCareRow>,
    pub surgeries: Vec<SurgeryRow>,
    pub veterinarians: Vec<VetModel>,
    pub pet_ids: Vec<String>,
    pub next_grooming_id: i32,
    pub next_preventive_care_id: i32,
    pub next_surgery_id: i32,
}

impl View for ServiceInstanceQueries {
    type V = DbModel;

    open spec fn view(&self) -> DbModel {
        DbModel {
            instances: self.instances.deep_view(),
            service_types: self.service_types.deep_view(),
            groomings: self.groomings.deep_view(),
            preventive_cares: self.preventive_cares.deep_view(),
            surgeries: self.surgeries.deep_view(),
            veterinarians: self.veterinarians.deep_view(),
            pet_ids: self.pet_ids.deep_view(),
            next_grooming_id: self.next_grooming_id,
            next_preventive_care_id: self.next_preventive_care_id,
            next_surgery_id: self.next_surgery_id,
        }
    }
}

/// Locates an instance id in the sorted instance table: either the index of
/// the row carrying it, or the position where a row with that id would be
/// inserted.
fn locate_instance(rows: &Vec<ServiceInstanceRow>, id: &String) -> (r: (usize, bool))
    requires
        instances_sorted(rows.deep_view()),
    ensures
        r.0 <= rows@.len(),
        r.1 <==> has_instance(rows.deep_view(), id@),
        r.1 ==> r.0 < rows@.len() && rows.deep_view()[r.0 as int].service_instance_id == id@,
        !r.1 ==> (forall|j: int|
            0 <= j < r.0 ==> str_lt(
                (#[trigger] rows.deep_view()[j]).service_instance_id,
                id@,
            )) && (forall|j: int|
            r.0 <= j < rows@.len() ==> str_lt(
                id@,
                (#[trigger] rows.deep_view()[j]).service_instance_id,
            )),
{
    let n = rows.len();
    let mut i: usize = 0;
    while i < n
        invariant
            instances_sorted(rows.deep_view()),
            n == rows@.len(),
            i <= n,
            forall|j: int|
                0 <= j < i ==> str_lt((#[trigger] rows.deep_view()[j]).service_instance_id, id@),
        decreases n - i,
    {
        if str_compare_lt(rows[i].service_instance_id.as_str(), id.as_str()) {
            i = i + 1;
        } else if rows[i].service_instance_id == *id {
            proof {
                assert(rows.deep_view()[i as int].service_instance_id == id@);
            }
            return (i, true);
        } else {
            proof {
                let dv = rows.deep_view();
                if !str_lt(id@, dv[i as int].service_instance_id) {
                    lemma_str_lt_connected(dv[i as int].service_instance_id, id@);
                }
                assert forall|j: int| i <= j < n implies str_lt(
                    id@,
                    (#[trigger] dv[j]).service_instance_id,
                ) by {
                    if j > i {
                        lemma_str_lt_transitive(
                            id@,
                            dv[i as int].service_instance_id,
                            dv[j].service_instance_id,
                        );
                    }
                }
                assert(!has_instance(dv, id@)) by {
                    if has_instance(dv, id@) {
                        let k = choose|k: int|
                            0 <= k < dv.len() && (#[trigger] dv[k].service_instance_id) == id@;
                        lemma_str_lt_irreflexive(id@);
                    }
                }
            }
            return (i, false);
        }
    }
    proof {
        let dv = rows.deep_view();
        assert(!has_instance(dv, id@)) by {
            if has_instance(dv, id@) {
                let k = choose|k: int|
                    0 <= k < dv.len() && (#[trigger] dv[k].service_instance_id) == id@;
                lemma_str_lt_irreflexive(id@);
            }
        }
    }
    (n, false)
}

/// The index of the grooming row with the given id, if one exists.
fn find_grooming_index(gs: &Vec<GroomingRow>, grooming_id: i32) -> (r: Option<usize>)
    ensures
        match r {
            Some(k) => k < gs@.len() && gs.deep_view()[k as int].grooming_id == grooming_id,
            None => !has_grooming(gs.deep_view(), grooming_id),
        },
{
    let mut i: usize = 0;
    while i < gs.len()
        invariant
            i <= gs@.len(),
            forall|j: int| 0 <= j < i ==> (#[trigger] gs.deep_view()[j]).grooming_id != grooming_id,
        decreases gs@.len() - i,
    {
        if gs[i].grooming_id == grooming_id {
            return Some(i);
        }
        i = i + 1;
    }
    None
}

/// The index of the preventive-care row with the given id, if one exists.
fn find_care_index(cs: &Vec<PreventiveCareRow>, preventive_care_id: i32) -> (r: Option<usize>)
    ensures
        match r {
            Some(k) => k < cs@.len() && cs.deep_view()[k as int].preventive_care_id
                == preventive_care_id,
            None => !has_care(cs.deep_view(), preventive_care_id),
        },
{
    let mut i: usize = 0;
    while i < cs.len()
        invariant
            i <= cs@.len(),
            forall|j: int|
                0 <= j < i ==> (#[trigger] cs.deep_view()[j]).preventive_care_id
                    != preventive_care_id,
        decreases cs@.len() - i,
    {
        if cs[i].preventive_care_id == preventive_care_id {
            return Some(i);
        }
        i = i + 1;
    }
    None
}

/// The index of the surgery row with the given id, if one exists.
fn find_surgery_index(ss: &Vec<SurgeryRow>, surgery_id: i32) -> (r: Option<usize>)
    ensures
        match r {
            Some(k) => k < ss@.len() && ss.deep_view()[k as int].surgery_id == surgery_id,
            None => !has_surgery(ss.deep_view(), surgery_id),
        },
{
    let mut i: usize = 0;
    while i < ss.len()
        invariant
            i <= ss@.len(),
            forall|j: int| 0 <= j < i ==> (#[trigger] ss.deep_view()[j]).surgery_id != surgery_id,
        decreases ss@.len() - i,
    {
        if ss[i].surgery_id == surgery_id {
            return Some(i);
        }
        i = i + 1;
    }
    None
}

/// Whether a veterinarian with the given id exists in the table.
fn vet_exists(vets: &Vec<VetModel>, id: &String) -> (r: bool)
    ensures
        r == has_vet(vets.deep_view(), id@),
{
    proof {
        lemma_find_vet_exists(vets.deep_view(), id@);
    }
    let mut i: usize = 0;
    while i < vets.len()
        invariant
            i <= vets@.len(),
            forall|j: int| 0 <= j < i ==> (#[trigger] vets.deep_view()[j]).vet_id != id@,
        decreases vets@.len() - i,
    {
        if vets[i].vet_id == *id {
            proof {
                assert(vets.deep_view()[i as int].vet_id == id@);
                lemma_find_vet_exists(vets.deep_view(), id@);
            }
            return true;
        }
        i = i + 1;
    }
    proof {
        lemma_find_vet_exists(vets.deep_view(), id@);
    }
    false
}

/// The tag names bound to an instance, in table order.
fn collect_tag_names(ts: &Vec<ServiceTypeRow>, id: &String) -> (r: Vec<String>)
    ensures
        r.deep_view() == tag_names_of(ts.deep_view(), id@),
{
    let ghost dv = ts.deep_view();
    let mut out: Vec<String> = Vec::new();
    let mut i: usize = 0;
    proof {
        assert(dv.take(0) =~= Seq::<crate::db::rows::ServiceTypeRowV>::empty());
        assert(out.deep_view() =~= tag_names_of(dv.take(0), id@));
    }
    while i < ts.len()
        invariant
            dv == ts.deep_view(),
            i <= ts@.len(),
            out.deep_view() == tag_names_of(dv.take(i as int), id@),
        decreases ts@.len() - i,
    {
        let ghost pre = out.deep_view();
        if ts[i].service_instance_id == *id {
            out.push(ts[i].service_type_name.clone());
        }
        proof {
            assert(dv.take(i as int + 1).drop_last() =~= dv.take(i as int));
            assert(dv.take(i as int + 1).last() == dv[i as int]);
            if dv[i as int].service_instance_id == id@ {
                assert(out.deep_view() =~= pre.push(dv[i as int].service_type_name));
            }
        }
        i = i + 1;
    }
    proof {
        assert(dv.take(ts@.len() as int) =~= dv);
    }
    out
}

/// The grooming entries of an instance, in table order, as read-side models.
fn collect_grooming_models(gs: &Vec<GroomingRow>, id: &String) -> (r: Vec<
    crate::models::service_instance_model::GroomingModel,
>)
    ensures
        r.deep_view() == grooming_models_of(gs.deep_view(), id@),
{
    let ghost dv = gs.deep_view();
    let mut out: Vec<crate::models::service_instance_model::GroomingModel> = Vec::new();
    let mut i: usize = 0;
    proof {
        assert(dv.take(0) =~= Seq::<crate::db::rows::GroomingRowV>::empty());
        assert(out.deep_view() =~= grooming_models_of(dv.take(0), id@));
    }
    while i < gs.len()
        invariant
            dv == gs.deep_view(),
            i <= gs@.len(),
            out.deep_view() == grooming_models_of(dv.take(i as int), id@),
        decreases gs@.len() - i,
    {
        let ghost pre = out.deep_view();
        if gs[i].service_instance_id == *id {
            out.push(
                crate::models::service_instance_model::GroomingModel {
                    grooming_id: gs[i].grooming_id,
                    grooming_type: gs[i].grooming_type.clone(),
                },
            );
        }
        proof {
            assert(dv.take(i as int + 1).drop_last() =~= dv.take(i as int));
            assert(dv.take(i as int + 1).last() == dv[i as int]);
            if dv[i as int].service_instance_id == id@ {
                assert(out.deep_view() =~= pre.push(
                    crate::models::service_instance_model::GroomingModelV {
                        grooming_id: dv[i as int].grooming_id,
                        grooming_type: dv[i as int].grooming_type,
                    },
                ));
            }
        }
        i = i + 1;
    }
    proof {
        assert(dv.take(gs@.len() as int) =~= dv);
    }
    out
}

/// The embedded view of the veterinarian with the given id, if one exists.
fn vet_view_of(vets: &Vec<VetModel>, id: &String) -> (r: Option<
    crate::models::vet_model::VetModelForService,
>)
    ensures
        match r {
            Some(v) => find_vet(vets.deep_view(), id@) is Some && v@ == vet_service_view(
                find_vet(vets.deep_view(), id@)->0,
            ),
            None => find_vet(vets.deep_view(), id@) is None,
        },
{
    let ghost dv = vets.deep_view();
    let n = vets.len();
    let mut i: usize = 0;
    proof {
        assert(dv.skip(0) =~= dv);
    }
    while i < n
        invariant
            dv == vets.deep_view(),
            n == vets@.len(),
            i <= n,
            find_vet(dv, id@) == find_vet(dv.skip(i as int), id@),
        decreases n - i,
    {
        proof {
            assert(dv.skip(i as int)[0] == dv[i as int]);
        }
        if vets[i].vet_id == *id {
            return Some(
                crate::models::vet_model::VetModelForService {
                    vet_name: vets[i].vet_name.clone(),
                    vet_email: vets[i].vet_email.clone(),
                    vet_phone_number: vets[i].vet_phone_number.clone(),
                    vet_license_number: vets[i].vet_license_number.clone(),
                },
            );
        }
        proof {
            assert(dv.skip(i as int).drop_first() =~= dv.skip(i as int + 1));
        }
        i = i + 1;
    }
    None
}

/// The preventive-care entries of an instance with their veterinarians
/// embedded; fails with the missing veterinarian's absence when a foreign key
/// cannot be resolved.
fn collect_care_models(
    cs: &Vec<PreventiveCareRow>,
    vets: &Vec<VetModel>,
    id: &String,
) -> (r: Result<Vec<crate::models::service_instance_model::PreventiveCareModel>, StoreError>)
    ensures
        r is Ok <==> (forall|i: int|
            0 <= i < cs.deep_view().len() && (
            #[trigger] cs.deep_view()[i]).service_instance_id == id@ ==> has_vet(
                vets.deep_view(),
                cs.deep_view()[i].vet_id,
            )),
        r is Err ==> r->Err_0 == StoreError::NotFound,
        r is Ok ==> r->Ok_0.deep_view() == care_models_from(cs.deep_view(), vets.deep_view(), id@),
{
    let ghost dv = cs.deep_view();
    let ghost vdv = vets.deep_view();
    let mut out: Vec<crate::models::service_instance_model::PreventiveCareModel> = Vec::new();
    let mut i: usize = 0;
    proof {
        assert(dv.take(0) =~= Seq::<crate::db::rows::PreventiveCareRowV>::empty());
        assert(out.deep_view() =~= care_models_from(dv.take(0), vdv, id@));
    }
    while i < cs.len()
        invariant
            dv == cs.deep_view(),
            vdv == vets.deep_view(),
            i <= cs@.len(),
            out.deep_view() == care_models_from(dv.take(i as int), vdv, id@),
            forall|j: int|
                0 <= j < i && (#[trigger] dv[j]).service_instance_id == id@ ==> has_vet(
                    vdv,
                    dv[j].vet_id,
                ),
        decreases cs@.len() - i,
    {
        let ghost pre = out.deep_view();
        if cs[i].service_instance_id == *id {
            match vet_view_of(vets, &cs[i].vet_id) {
                Some(vet) => {
                    let entry = crate::models::service_instance_model::PreventiveCareModel {
                        preventive_care_id: cs[i].preventive_care_id,
                        treatment: cs[i].treatment.clone(),
                        vet,
                    };
                    let ghost ev = entry.deep_view();
                    proof {
                        assert(ev == care_model_of(dv[i as int], find_vet(vdv, dv[i as int].vet_id)->0));
                    }
                    out.push(entry);
                    proof {
                        assert(out@.len() == pre.len() + 1);
                        assert(out@[pre.len() as int] == entry);
                        assert(out.deep_view().last() == ev);
                    }
                },
                None => {
                    proof {
                        assert(dv[i as int].service_instance_id == id@);
                        assert(!has_vet(vdv, dv[i as int].vet_id));
                    }
                    return Err(StoreError::NotFound);
                },
            }
        }
        proof {
            assert(dv.take(i as int + 1).drop_last() =~= dv.take(i as int));
            assert(dv.take(i as int + 1).last() == dv[i as int]);
            let rows1 = care_rows_of(dv.take(i as int + 1), id@);
            let rows0 = care_rows_of(dv.take(i as int), id@);
            if dv[i as int].service_instance_id == id@ {
                assert(rows1 == rows0.push(dv[i as int]));
                assert(out.deep_view().len() == pre.len() + 1);
                assert(out.deep_view().last() == care_model_of(
                    dv[i as int],
                    find_vet(vdv, dv[i as int].vet_id)->0,
                ));
                let target = care_models_from(dv.take(i as int + 1), vdv, id@);
                assert(target.len() == rows1.len());
                assert forall|j: int| 0 <= j < out.deep_view().len() implies out.deep_view()[j]
                    == target[j] by {
                    assert(target[j] == care_model_of(rows1[j], find_vet(vdv, rows1[j].vet_id)->0));
                    if j < pre.len() {
                        assert(out.deep_view()[j] == pre[j]);
                        assert(rows1[j] == rows0[j]);
                        assert(pre[j] == care_model_of(rows0[j], find_vet(vdv, rows0[j].vet_id)->0));
                    } else {
                        assert(rows1[j] == dv[i as int]);
                        assert(out.deep_view()[j] == out.deep_view().last());
                    }
                }
                assert(out.deep_view() =~= target);
            } else {
                assert(rows1 == rows0);
                assert(out.deep_view() =~= care_models_from(dv.take(i as int + 1), vdv, id@));
            }
        }
        i = i + 1;
    }
    proof {
        assert(dv.take(cs@.len() as int) =~= dv);
    }
    Ok(out)
}

/// The surgery entries of an instance with their veterinarians embedded;
/// fails when a referenced veterinarian is absent.
fn collect_surgery_models(
    ss: &Vec<SurgeryRow>,
    vets: &Vec<VetModel>,
    id: &String,
) -> (r: Result<Vec<crate::models::service_instance_model::SurgeryModel>, StoreError>)
    ensures
        r is Ok <==> (forall|i: int|
            0 <= i < ss.deep_view().len() && (
            #[trigger] ss.deep_view()[i]).service_instance_id == id@ ==> has_vet(
                vets.deep_view(),
                ss.deep_view()[i].vet_id,
            )),
        r is Err ==> r->Err_0 == StoreError::NotFound,
        r is Ok ==> r->Ok_0.deep_view() == surgery_models_from(
            ss.deep_view(),
            vets.deep_view(),
            id@,
        ),
{
    let ghost dv = ss.deep_view();
    let ghost vdv = vets.deep_view();
    let mut out: Vec<crate::models::service_instance_model::SurgeryModel> = Vec::new();
    let mut i: usize = 0;
    proof {
        assert(dv.take(0) =~= Seq::<crate::db::rows::SurgeryRowV>::empty());
        assert(out.deep_view() =~= surgery_models_from(dv.take(0), vdv, id@));
    }
    while i < ss.len()
        invariant
            dv == ss.deep_view(),
            vdv == vets.deep_view(),
            i <= ss@.len(),
            out.deep_view() == surgery_models_from(dv.take(i as int), vdv, id@),
            forall|j: int|
                0 <= j < i && (#[trigger] dv[j]).service_instance_id == id@ ==> has_vet(
                    vdv,
                    dv[j].vet_id,
                ),
        decreases ss@.len() - i,
    {
        let ghost pre = out.deep_view();
        if ss[i].service_instance_id == *id {
            match vet_view_of(vets, &ss[i].vet_id) {
                Some(vet) => {
                    let entry = crate::models::service_instance_model::SurgeryModel {
                        surgery_id: ss[i].surgery_id,
                        surgery_name: ss[i].surgery_name.clone(),
                        veterinarian_diagnosis: ss[i].veterinarian_diagnosis.clone(),
                        anesthesia_used: ss[i].anesthesia_used.clone(),
                        complications: ss[i].complications.clone(),
                        outcome: ss[i].outcome.clone(),
                        vet,
                    };
                    let ghost ev = entry.deep_view();
                    proof {
                        assert(ev == surgery_model_of(dv[i as int], find_vet(vdv, dv[i as int].vet_id)->0));
                    }
                    out.push(entry);
                    proof {
                        assert(out@.len() == pre.len() + 1);
                        assert(out@[pre.len() as int] == entry);
                        assert(out.deep_view().last() == ev);
                    }
                },
                None => {
                    proof {
                        assert(dv[i as int].service_instance_id == id@);
                        assert(!has_vet(vdv, dv[i as int].vet_id));
                    }
                    return Err(StoreError::NotFound);
                },
            }
        }
        proof {
            assert(dv.take(i as int + 1).drop_last() =~= dv.take(i as int));
            assert(dv.take(i as int + 1).last() == dv[i as int]);
            let rows1 = surgery_rows_of(dv.take(i as int + 1), id@);
            let rows0 = surgery_rows_of(dv.take(i as int), id@);
            if dv[i as int].service_instance_id == id@ {
                assert(rows1 == rows0.push(dv[i as int]));
                assert(out.deep_view().len() == pre.len() + 1);
                assert(out.deep_view().last() == surgery_model_of(
                    dv[i as int],
                    find_vet(vdv, dv[i as int].vet_id)->0,
                ));
                let target = surgery_models_from(dv.take(i as int + 1), vdv, id@);
                assert(target.len() == rows1.len());
                assert forall|j: int| 0 <= j < out.deep_view().len() implies out.deep_view()[j]
                    == target[j] by {
                    assert(target[j] == surgery_model_of(rows1[j], find_vet(vdv, rows1[j].vet_id)->0));
                    if j < pre.len() {
                        assert(out.deep_view()[j] == pre[j]);
                        assert(rows1[j] == rows0[j]);
                        assert(pre[j] == surgery_model_of(rows0[j], find_vet(vdv, rows0[j].vet_id)->0));
                    } else {
                        assert(rows1[j] == dv[i as int]);
                        assert(out.deep_view()[j] == out.deep_view().last());
                    }
                }
                assert(out.deep_view() =~= target);
            } else {
                assert(rows1 == rows0);
                assert(out.deep_view() =~= surgery_models_from(dv.take(i as int + 1), vdv, id@));
            }
        }
        i = i + 1;
    }
    proof {
        assert(dv.take(ss@.len() as int) =~= dv);
    }
    Ok(out)
}

/// Whether a pet with the given id exists in the table.
fn pet_exists(pets: &Vec<String>, id: &String) -> (r: bool)
    ensures
        r == has_pet(pets.deep_view(), id@),
{
    let mut i: usize = 0;
    while i < pets.len()
        invariant
            i <= pets@.len(),
            forall|j: int| 0 <= j < i ==> (#[trigger] pets.deep_view()[j]) != id@,
        decreases pets@.len() - i,
    {
        if pets[i] == *id {
            proof {
                assert(pets.deep_view()[i as int] == id@);
            }
            return true;
        }
        i = i + 1;
    }
    false
}

/// Appends one tag row per supplied label, all bound to one instance.
fn append_tag_rows(ts: &mut Vec<ServiceTypeRow>, names: &Vec<String>, id: &String)
    ensures
        final(ts).deep_view() == old(ts).deep_view() + crate::db::model::tag_rows_named(
            names.deep_view(),
            id@,
        ),
{
    let ghost base = ts.deep_view();
    let ghost block = crate::db::model::tag_rows_named(names.deep_view(), id@);
    let mut i: usize = 0;
    proof {
        assert(ts.deep_view() =~= base + block.take(0));
    }
    while i < names.len()
        invariant
            i <= names@.len(),
            block == crate::db::model::tag_rows_named(names.deep_view(), id@),
            block.len() == names@.len(),
            ts.deep_view() == base + block.take(i as int),
        decreases names@.len() - i,
    {
        let ghost pre = ts.deep_view();
        ts.push(
            ServiceTypeRow {
                service_type_name: names[i].clone(),
                service_instance_id: id.clone(),
            },
        );
        proof {
            assert(ts.deep_view() =~= pre.push(block[i as int]));
            assert(pre.push(block[i as int]) =~= base + block.take(i as int + 1));
        }
        i = i + 1;
    }
    proof {
        assert(block.take(names@.len() as int) =~= block);
        assert(ts.deep_view() =~= base + block);
    }
}

/// Appends one grooming row per supplied type, assigning ids sequentially
/// from `next`, and returns the echoed grooming values, ids attached.
fn append_grooming_rows(gs: &mut Vec<GroomingRow>, types: &Vec<String>, id: &String, next: i32) -> (out: Vec<
    crate::schemas::service_instance_schema::Grooming,
>)
    requires
        next >= 1,
        next as int + types@.len() <= i32::MAX as int,
    ensures
        final(gs).deep_view() == old(gs).deep_view() + crate::db::model::grooming_rows_named(
            next,
            types.deep_view(),
            id@,
        ),
        out.deep_view() == crate::db::model::grooming_echoes_named(next, types.deep_view(), id@),
{
    let ghost base = gs.deep_view();
    let ghost block = crate::db::model::grooming_rows_named(next, types.deep_view(), id@);
    let ghost echoes = crate::db::model::grooming_echoes_named(next, types.deep_view(), id@);
    let mut out: Vec<crate::schemas::service_instance_schema::Grooming> = Vec::new();
    let mut i: usize = 0;
    proof {
        assert(gs.deep_view() =~= base + block.take(0));
        assert(out.deep_view() =~= echoes.take(0));
    }
    while i < types.len()
        invariant
            i <= types@.len(),
            next >= 1,
            next as int + types@.len() <= i32::MAX as int,
            block == crate::db::model::grooming_rows_named(next, types.deep_view(), id@),
            echoes == crate::db::model::grooming_echoes_named(next, types.deep_view(), id@),
            block.len() == types@.len(),
            echoes.len() == types@.len(),
            gs.deep_view() == base + block.take(i as int),
            out.deep_view() == echoes.take(i as int),
        decreases types@.len() - i,
    {
        let row_id = next + i as i32;
        let ghost pre_rows = gs.deep_view();
        let ghost pre_out = out.deep_view();
        gs.push(
            GroomingRow {
                grooming_id: row_id,
                grooming_type: types[i].clone(),
                service_instance_id: id.clone(),
            },
        );
        out.push(
            crate::schemas::service_instance_schema::Grooming {
                grooming_id: Some(row_id),
                grooming_type: types[i].clone(),
                service_instance_id: id.clone(),
            },
        );
        proof {
            assert(gs.deep_view() =~= pre_rows.push(block[i as int]));
            assert(pre_rows.push(block[i as int]) =~= base + block.take(i as int + 1));
            assert(out.deep_view() =~= pre_out.push(echoes[i as int]));
            assert(pre_out.push(echoes[i as int]) =~= echoes.take(i as int + 1));
        }
        i = i + 1;
    }
    proof {
        assert(block.take(types@.len() as int) =~= block);
        assert(echoes.take(types@.len() as int) =~= echoes);
        assert(gs.deep_view() =~= base + block);
    }
    out
}

/// Appends one preventive-care row per treatment, all sharing one
/// veterinarian, assigning ids sequentially from `next`, and returns the
/// echoed values, ids attached.
fn append_care_rows(
    cs: &mut Vec<PreventiveCareRow>,
    treatments: &Vec<String>,
    vet_id: &String,
    id: &String,
    next: i32,
) -> (out: Vec<crate::schemas::service_instance_schema::PreventiveCare>)
    requires
        next >= 1,
        next as int + treatments@.len() <= i32::MAX as int,
    ensures
        final(cs).deep_view() == old(cs).deep_view() + crate::db::model::care_rows_named(
            next,
            treatments.deep_view(),
            vet_id@,
            id@,
        ),
        out.deep_view() == crate::db::model::care_echoes_named(
            next,
            treatments.deep_view(),
            vet_id@,
            id@,
        ),
{
    let ghost base = cs.deep_view();
    let ghost block = crate::db::model::care_rows_named(next, treatments.deep_view(), vet_id@, id@);
    let ghost echoes = crate::db::model::care_echoes_named(
        next,
        treatments.deep_view(),
        vet_id@,
        id@,
    );
    let mut out: Vec<crate::schemas::service_instance_schema::PreventiveCare> = Vec::new();
    let mut i: usize = 0;
    proof {
        assert(cs.deep_view() =~= base + block.take(0));
        assert(out.deep_view() =~= echoes.take(0));
    }
    while i < treatments.len()
        invariant
            i <= treatments@.len(),
            next >= 1,
            next as int + treatments@.len() <= i32::MAX as int,
            block == crate::db::model::care_rows_named(next, treatments.deep_view(), vet_id@, id@),
            echoes == crate::db::model::care_echoes_named(
                next,
                treatments.deep_view(),
                vet_id@,
                id@,
            ),
            block.len() == treatments@.len(),
            echoes.len() == treatments@.len(),
            cs.deep_view() == base + block.take(i as int),
            out.deep_view() == echoes.take(i as int),
        decreases treatments@.len() - i,
    {
        let row_id = next + i as i32;
        let ghost pre_rows = cs.deep_view();
        let ghost pre_out = out.deep_view();
        cs.push(
            PreventiveCareRow {
                preventive_care_id: row_id,
                treatment: treatments[i].clone(),
                vet_id: vet_id.clone(),
                service_instance_id: id.clone(),
            },
        );
        out.push(
            crate::schemas::service_instance_schema::PreventiveCare {
                preventive_care_id: Some(row_id),
                treatment: treatments[i].clone(),
                vet_id: vet_id.clone(),
                service_instance_id: id.clone(),
            },
        );
        proof {
            assert(cs.deep_view() =~= pre_rows.push(block[i as int]));
            assert(pre_rows.push(block[i as int]) =~= base + block.take(i as int + 1));
            assert(out.deep_view() =~= pre_out.push(echoes[i as int]));
            assert(pre_out.push(echoes[i as int]) =~= echoes.take(i as int + 1));
        }
        i = i + 1;
    }
    proof {
        assert(block.take(treatments@.len() as int) =~= block);
        assert(echoes.take(treatments@.len() as int) =~= echoes);
        assert(cs.deep_view() =~= base + block);
    }
    out
}

/// The tag rows of every other instance, in table order: what a tag-set
/// replacement keeps.
fn retain_other_tags(ts: &Vec<ServiceTypeRow>, id: &String) -> (out: Vec<ServiceTypeRow>)
    ensures
        out.deep_view() == tag_rows_except(ts.deep_view(), id@),
{
    let ghost dv = ts.deep_view();
    let mut out: Vec<ServiceTypeRow> = Vec::new();
    let mut i: usize = 0;
    proof {
        assert(dv.take(0) =~= Seq::<crate::db::rows::ServiceTypeRowV>::empty());
        assert(out.deep_view() =~= tag_rows_except(dv.take(0), id@));
    }
    while i < ts.len()
        invariant
            dv == ts.deep_view(),
            i <= ts@.len(),
            out.deep_view() == tag_rows_except(dv.take(i as int), id@),
        decreases ts@.len() - i,
    {
        let ghost pre = out.deep_view();
        if !(ts[i].service_instance_id == *id) {
            out.push(
                ServiceTypeRow {
                    service_type_name: ts[i].service_type_name.clone(),
                    service_instance_id: ts[i].service_instance_id.clone(),
                },
            );
        }
        proof {
            assert(dv.take(i as int + 1).drop_last() =~= dv.take(i as int));
            assert(dv.take(i as int + 1).last() == dv[i as int]);
            if dv[i as int].service_instance_id == id@ {
                assert(out.deep_view() == pre);
            } else {
                assert(out.deep_view() =~= pre.push(dv[i as int]));
            }
        }
        i = i + 1;
    }
    proof {
        assert(dv.take(ts@.len() as int) =~= dv);
    }
    out
}

impl ServiceInstanceQueries {
    /// Well-formedness of the store: see [`wf_db`].
    pub open spec fn wf(&self) -> bool {
        wf_db(self@)
    }

    /// A fresh store: every table empty, every id counter at one.
    pub fn new() -> (s: Self)
        ensures
            s.wf(),
            s@ == empty_db(),
    {
        let s = ServiceInstanceQueries {
            instances: Vec::new(),
            service_types: Vec::new(),
            groomings: Vec::new(),
            preventive_cares: Vec::new(),
            surgeries: Vec::new(),
            veterinarians: Vec::new(),
            pet_ids: Vec::new(),
            next_grooming_id: 1,
            next_preventive_care_id: 1,
            next_surgery_id: 1,
        };
        proof {
            assert(s@ =~= empty_db());
        }
        s
    }

    /// Inserts a veterinarian record; a duplicate id is a conflict, as the
    /// primary key would reject it.
    pub fn insert_vet(
        &mut self,
        vet_id: String,
        vet_name: String,
        vet_email: String,
        vet_phone_number: String,
        vet_license_number: String,
    ) -> (r: Result<u64, StoreError>)
        requires
            old(self).wf(),
        ensures
            final(self).wf(),
            r is Ok <==> !has_vet(old(self)@.veterinarians, vet_id@),
            r is Err ==> r->Err_0 == StoreError::Conflict && final(self)@ == old(self)@,
            r is Ok ==> r->Ok_0 == 1 && final(self)@ == (DbModel {
                veterinarians: old(self)@.veterinarians.push(
                    crate::models::vet_model::VetModelV {
                        vet_id: vet_id@,
                        vet_name: vet_name@,
                        vet_email: vet_email@,
                        vet_phone_number: vet_phone_number@,
                        vet_license_number: vet_license_number@,
                    },
                ),
                ..old(self)@
            }),
    {
        if vet_exists(&self.veterinarians, &vet_id) {
            return Err(StoreError::Conflict);
        }
        proof {
            lemma_find_vet_exists(self.veterinarians.deep_view(), vet_id@);
        }
        self.veterinarians.push(
            VetModel { vet_id, vet_name, vet_email, vet_phone_number, vet_license_number },
        );
        proof {
            assert(self@ =~= DbModel {
                veterinarians: old(self)@.veterinarians.push(
                    crate::models::vet_model::VetModelV {
                        vet_id: vet_id@,
                        vet_name: vet_name@,
                        vet_email: vet_email@,
                        vet_phone_number: vet_phone_number@,
                        vet_license_number: vet_license_number@,
                    },
                ),
                ..old(self)@
            });
        }
        Ok(1)
    }

    /// Registers a pet id in the externally owned pet table, so that the
    /// aggregate's foreign key can resolve; a duplicate id is a conflict.
    pub fn register_pet(&mut self, pet_id: String) -> (r: Result<u64, StoreError>)
        requires
            old(self).wf(),
        ensures
            final(self).wf(),
            r is Ok <==> !has_pet(old(self)@.pet_ids, pet_id@),
            r is Err ==> r->Err_0 == StoreError::Conflict && final(self)@ == old(self)@,
            r is Ok ==> r->Ok_0 == 1 && final(self)@ == (DbModel {
                pet_ids: old(self)@.pet_ids.push(pet_id@),
                ..old(self)@
            }),
    {
        if pet_exists(&self.pet_ids, &pet_id) {
            return Err(StoreError::Conflict);
        }
        self.pet_ids.push(pet_id);
        proof {
            assert(self@ =~= DbModel { pet_ids: old(self)@.pet_ids.push(pet_id@), ..old(self)@ });
        }
        Ok(1)
    }

    /// Deletes one grooming entry by its own id. A missing id is signaled by
    /// a zero affected-row count, not an error.
    pub fn delete_grooming(&mut self, grooming_id: i32) -> (r: Result<u64, StoreError>)
        requires
            old(self).wf(),
        ensures
            final(self).wf(),
            r is Ok,
            !has_grooming(old(self)@.groomings, grooming_id) ==> r->Ok_0 == 0 && final(self)@
                == old(self)@,
            has_grooming(old(self)@.groomings, grooming_id) ==> r->Ok_0 == 1 && (exists|k: int|
                0 <= k < old(self)@.groomings.len() && (
                #[trigger] old(self)@.groomings[k].grooming_id) == grooming_id && final(self)@
                == (DbModel { groomings: old(self)@.groomings.remove(k), ..old(self)@ })),
    {
        match find_grooming_index(&self.groomings, grooming_id) {
            Some(k) => {
                self.groomings.remove(k);
                proof {
                    let prev = old(self)@.groomings;
                    prev.remove_ensures(k as int);
                    assert(self@ =~= DbModel { groomings: prev.remove(k as int), ..old(self)@ });
                    assert forall|a: int, b: int|
                        0 <= a < b < self@.groomings.len() implies (
                    #[trigger] self@.groomings[a].grooming_id) != (
                    #[trigger] self@.groomings[b].grooming_id) by {
                        let a0 = if a < k { a } else { a + 1 };
                        let b0 = if b < k { b } else { b + 1 };
                        assert(self@.groomings[a] == prev[a0]);
                        assert(self@.groomings[b] == prev[b0]);
                    }
                    assert forall|a: int| 0 <= a < self@.groomings.len() implies 1 <= (
                    #[trigger] self@.groomings[a].grooming_id) < self@.next_grooming_id by {
                        let a0 = if a < k { a } else { a + 1 };
                        assert(self@.groomings[a] == prev[a0]);
                    }
                }
                Ok(1)
            },
            None => Ok(0),
        }
    }

    /// Deletes one preventive-care entry by its own id; a missing id yields a
    /// zero affected-row count.
    pub fn delete_preventive_care(&mut self, preventive_care_id: i32) -> (r: Result<
        u64,
        StoreError,
    >)
        requires
            old(self).wf(),
        ensures
            final(self).wf(),
            r is Ok,
            !has_care(old(self)@.preventive_cares, preventive_care_id) ==> r->Ok_0 == 0 && final(self)@ == old(self)@,
            has_care(old(self)@.preventive_cares, preventive_care_id) ==> r->Ok_0 == 1 && (exists|
                k: int,
            |
                0 <= k < old(self)@.preventive_cares.len() && (
                #[trigger] old(self)@.preventive_cares[k].preventive_care_id)
                    == preventive_care_id && final(self)@ == (DbModel {
                    preventive_cares: old(self)@.preventive_cares.remove(k),
                    ..old(self)@
                })),
    {
        match find_care_index(&self.preventive_cares, preventive_care_id) {
            Some(k) => {
                self.preventive_cares.remove(k);
                proof {
                    let prev = old(self)@.preventive_cares;
                    prev.remove_ensures(k as int);
                    assert(self@ =~= DbModel {
                        preventive_cares: prev.remove(k as int),
                        ..old(self)@
                    });
                    assert forall|a: int, b: int|
                        0 <= a < b < self@.preventive_cares.len() implies (
                    #[trigger] self@.preventive_cares[a].preventive_care_id) != (
                    #[trigger] self@.preventive_cares[b].preventive_care_id) by {
                        let a0 = if a < k { a } else { a + 1 };
                        let b0 = if b < k { b } else { b + 1 };
                        assert(self@.preventive_cares[a] == prev[a0]);
                        assert(self@.preventive_cares[b] == prev[b0]);
                    }
                    assert forall|a: int| 0 <= a < self@.preventive_cares.len() implies 1 <= (
                    #[trigger] self@.preventive_cares[a].preventive_care_id)
                        < self@.next_preventive_care_id by {
                        let a0 = if a < k { a } else { a + 1 };
                        assert(self@.preventive_cares[a] == prev[a0]);
                    }
                }
                Ok(1)
            },
            None => Ok(0),
        }
    }

    /// Deletes one surgery by its own id; a missing id yields a zero
    /// affected-row count.
    pub fn delete_surgery(&mut self, surgery_id: i32) -> (r: Result<u64, StoreError>)
        requires
            old(self).wf(),
        ensures
            final(self).wf(),
            r is Ok,
            !has_surgery(old(self)@.surgeries, surgery_id) ==> r->Ok_0 == 0 && final(self)@ == old(
                self,
            )@,
            has_surgery(old(self)@.surgeries, surgery_id) ==> r->Ok_0 == 1 && (exists|k: int|
                0 <= k < old(self)@.surgeries.len() && (
                #[trigger] old(self)@.surgeries[k].surgery_id) == surgery_id && final(self)@
                    == (DbModel { surgeries: old(self)@.surgeries.remove(k), ..old(self)@ })),
    {
        match find_surgery_index(&self.surgeries, surgery_id) {
            Some(k) => {
                self.surgeries.remove(k);
                proof {
                    let prev = old(self)@.surgeries;
                    prev.remove_ensures(k as int);
                    assert(self@ =~= DbModel { surgeries: prev.remove(k as int), ..old(self)@ });
                    assert forall|a: int, b: int|
                        0 <= a < b < self@.surgeries.len() implies (
                    #[trigger] self@.surgeries[a].surgery_id) != (
                    #[trigger] self@.surgeries[b].surgery_id) by {
                        let a0 = if a < k { a } else { a + 1 };
                        let b0 = if b < k { b } else { b + 1 };
                        assert(self@.surgeries[a] == prev[a0]);
                        assert(self@.surgeries[b] == prev[b0]);
                    }
                    assert forall|a: int| 0 <= a < self@.surgeries.len() implies 1 <= (
                    #[trigger] self@.surgeries[a].surgery_id) < self@.next_surgery_id by {
                        let a0 = if a < k { a } else { a + 1 };
                        assert(self@.surgeries[a] == prev[a0]);
                    }
                }
                Ok(1)
            },
            None => Ok(0),
        }
    }

    /// Deletes the parent row of a service instance. Child rows are not
    /// cascaded: tags, groomings, treatments and surgeries of the deleted
    /// instance stay behind until removed by their own ids. A missing id
    /// yields a zero affected-row count.
    pub fn delete_service_instance(&mut self, service_instance_id: String) -> (r: Result<
        u64,
        StoreError,
    >)
        requires
            old(self).wf(),
        ensures
            final(self).wf(),
            r is Ok,
            !has_instance(old(self)@.instances, service_instance_id@) ==> r->Ok_0 == 0 && final(self)@ == old(self)@,
            has_instance(old(self)@.instances, service_instance_id@) ==> r->Ok_0 == 1 && (exists|
                k: int,
            |
                0 <= k < old(self)@.instances.len() && (
                #[trigger] old(self)@.instances[k].service_instance_id) == service_instance_id@
                    && final(self)@ == (DbModel {
                    instances: old(self)@.instances.remove(k),
                    ..old(self)@
                })),
    {
        let (k, found) = locate_instance(&self.instances, &service_instance_id);
        if !found {
            return Ok(0);
        }
        self.instances.remove(k);
        proof {
            let prev = old(self)@.instances;
            prev.remove_ensures(k as int);
            assert(self@ =~= DbModel { instances: prev.remove(k as int), ..old(self)@ });
            assert forall|a: int, b: int| 0 <= a < b < self@.instances.len() implies str_lt(
                (#[trigger] self@.instances[a]).service_instance_id,
                (#[trigger] self@.instances[b]).service_instance_id,
            ) by {
                let a0 = if a < k { a } else { a + 1 };
                let b0 = if b < k { b } else { b + 1 };
                assert(self@.instances[a] == prev[a0]);
                assert(self@.instances[b] == prev[b0]);
            }
        }
        Ok(1)
    }

    /// Fetches one service instance with all of its children assembled: the
    /// parent's scalar fields, its tag list, and its child collections with
    /// veterinarian sub-views embedded, empty collections collapsed to
    /// absent. Fails with `NotFound` when the parent row is absent or a
    /// referenced veterinarian cannot be looked up.
    pub fn get_specific_instance(&self, service_instance_id: String) -> (r: Result<
        crate::models::service_instance_model::ServiceInstanceModel,
        StoreError,
    >)
        requires
            self.wf(),
        ensures
            r is Ok <==> detail_ok(self@, service_instance_id@),
            r is Err ==> r->Err_0 == StoreError::NotFound,
            r is Ok ==> r->Ok_0@ == instance_detail(self@, service_instance_id@),
    {
        let (k, found) = locate_instance(&self.instances, &service_instance_id);
        if !found {
            proof {
                lemma_find_instance_exists(self@.instances, service_instance_id@);
            }
            return Err(StoreError::NotFound);
        }
        proof {
            lemma_sorted_find_instance(self@.instances, k as int, service_instance_id@);
        }
        let row = &self.instances[k];
        let service_types = collect_tag_names(&self.service_types, &service_instance_id);
        let groomings = collect_grooming_models(&self.groomings, &service_instance_id);
        let cares = match collect_care_models(
            &self.preventive_cares,
            &self.veterinarians,
            &service_instance_id,
        ) {
            Ok(cares) => cares,
            Err(e) => {
                return Err(e);
            },
        };
        let mut surgeries = match collect_surgery_models(
            &self.surgeries,
            &self.veterinarians,
            &service_instance_id,
        ) {
            Ok(surgeries) => surgeries,
            Err(e) => {
                return Err(e);
            },
        };
        let surgery = if surgeries.len() == 0 {
            None
        } else {
            let first = surgeries.remove(0);
            proof {
                assert(first@ == surgery_models_of(self@, service_instance_id@)[0]);
            }
            Some(first)
        };
        let result = crate::models::service_instance_model::ServiceInstanceModel {
            service_instance_id: row.service_instance_id.clone(),
            service_date: row.service_date.clone(),
            service_type: service_types,
            service_reason: row.service_reason.clone(),
            general_diagnosis: row.general_diagnosis.clone(),
            requires_followup: row.requires_followup,
            pet_id: row.pet_id.clone(),
            followup_date: row.followup_date.clone(),
            grooming: if groomings.len() == 0 {
                None
            } else {
                Some(groomings)
            },
            preventive_care: if cares.len() == 0 {
                None
            } else {
                Some(cares)
            },
            surgery,
        };
        proof {
            assert(result@ =~~= instance_detail(self@, service_instance_id@));
        }
        Ok(result)
    }

    /// Creates a service instance together with all of its child rows as one
    /// atomic unit: the parent row, one tag row per label, one grooming row
    /// per type, one preventive-care row per treatment, and at most one
    /// surgery row. Either every row is written and the materialized value
    /// returned, store-assigned ids included, or nothing changes at all: a
    /// duplicate instance id aborts with a conflict, and an unresolved
    /// foreign key or an exhausted id space aborts with a storage error.
    pub fn insert_service_instance(
        &mut self,
        service_instance_id: String,
        service_date: String,
        service_type: Vec<String>,
        service_reason: String,
        general_diagnosis: String,
        requires_followup: bool,
        followup_date: Option<String>,
        pet_id: String,
        grooming_type: Option<Vec<String>>,
        preventive_care: Option<AddPreventiveCare>,
        surgery: Option<AddSurgery>,
    ) -> (r: Result<ServiceInstance, StoreError>)
        requires
            old(self).wf(),
        ensures
            final(self).wf(),
            r is Err ==> final(self)@ == old(self)@,
            ({
                let req = CreateRequestV {
                    service_instance_id: service_instance_id@,
                    service_date: service_date@,
                    service_type: service_type.deep_view(),
                    service_reason: service_reason@,
                    general_diagnosis: general_diagnosis@,
                    requires_followup: requires_followup,
                    followup_date: followup_date.deep_view(),
                    pet_id: pet_id@,
                    grooming_type: grooming_type.deep_view(),
                    preventive_care: preventive_care.deep_view(),
                    surgery: surgery.deep_view(),
                };
                &&& (r is Ok <==> create_ok(old(self)@, req))
                &&& (r is Err && create_conflict(old(self)@, req) ==> r->Err_0
                    == StoreError::Conflict)
                &&& (r is Err && !create_conflict(old(self)@, req) ==> r->Err_0
                    == StoreError::Storage)
                &&& (r is Ok ==> create_post(old(self)@, req, r->Ok_0@, final(self)@))
            }),
    {
        let ghost m0 = self@;
        let ghost req = CreateRequestV {
            service_instance_id: service_instance_id@,
            service_date: service_date@,
            service_type: service_type.deep_view(),
            service_reason: service_reason@,
            general_diagnosis: general_diagnosis@,
            requires_followup: requires_followup,
            followup_date: followup_date.deep_view(),
            pet_id: pet_id@,
            grooming_type: grooming_type.deep_view(),
            preventive_care: preventive_care.deep_view(),
            surgery: surgery.deep_view(),
        };
        // Guard phase: nothing is mutated until every check has passed, so a
        // failure aborts the whole aggregate with the store untouched.
        let (pos, found) = locate_instance(&self.instances, &service_instance_id);
        if found {
            return Err(StoreError::Conflict);
        }
        if !pet_exists(&self.pet_ids, &pet_id) {
            return Err(StoreError::Storage);
        }
        let care_n: usize = match &preventive_care {
            Some(pc) => pc.treatment.len(),
            None => 0,
        };
        match &preventive_care {
            Some(pc) => {
                if care_n > 0 && !vet_exists(&self.veterinarians, &pc.vet_id) {
                    return Err(StoreError::Storage);
                }
            },
            None => {},
        }
        match &surgery {
            Some(sg) => {
                if !vet_exists(&self.veterinarians, &sg.vet_id) {
                    return Err(StoreError::Storage);
                }
            },
            None => {},
        }
        let groom_n: usize = match &grooming_type {
            Some(gt) => gt.len(),
            None => 0,
        };
        let surg_n: usize = match &surgery {
            Some(_) => 1,
            None => 0,
        };
        if groom_n > (i32::MAX - self.next_grooming_id) as usize {
            return Err(StoreError::Storage);
        }
        if care_n > (i32::MAX - self.next_preventive_care_id) as usize {
            return Err(StoreError::Storage);
        }
        if surg_n > (i32::MAX - self.next_surgery_id) as usize {
            return Err(StoreError::Storage);
        }
        proof {
            assert(grooming_count(req) == groom_n as int);
            assert(care_count(req) == care_n as int);
            assert(surgery_count(req) == surg_n as int);
            assert(create_ok(m0, req));
        }
        // Write phase: parent first, then the children, so that every child
        // row references an existing instance.
        let row = ServiceInstanceRow {
            service_instance_id: service_instance_id.clone(),
            service_date: service_date.clone(),
            service_reason: service_reason.clone(),
            general_diagnosis: general_diagnosis.clone(),
            requires_followup,
            followup_date: followup_date.clone(),
            pet_id: pet_id.clone(),
        };
        self.instances.insert(pos, row);
        proof {
            m0.instances.insert_ensures(pos as int, instance_row_of(req));
            assert(self.instances.deep_view() =~= m0.instances.insert(
                pos as int,
                instance_row_of(req),
            ));
            assert forall|a: int, b: int|
                0 <= a < b < self.instances.deep_view().len() implies str_lt(
                (#[trigger] self.instances.deep_view()[a]).service_instance_id,
                (#[trigger] self.instances.deep_view()[b]).service_instance_id,
            ) by {
                let dv = self.instances.deep_view();
                let p = pos as int;
                if a < p && b < p {
                    assert(dv[a] == m0.instances[a]);
                    assert(dv[b] == m0.instances[b]);
                } else if a < p && b == p {
                    assert(dv[a] == m0.instances[a]);
                } else if a < p && b > p {
                    assert(dv[a] == m0.instances[a]);
                    assert(dv[b] == m0.instances[b - 1]);
                } else if a == p {
                    assert(dv[b] == m0.instances[b - 1]);
                } else {
                    assert(dv[a] == m0.instances[a - 1]);
                    assert(dv[b] == m0.instances[b - 1]);
                }
            }
        }
        let ghost inst1 = self.instances.deep_view();
        append_tag_rows(&mut self.service_types, &service_type, &service_instance_id);
        let grooming = match &grooming_type {
            Some(gt) => {
                let echo = append_grooming_rows(
                    &mut self.groomings,
                    gt,
                    &service_instance_id,
                    self.next_grooming_id,
                );
                self.next_grooming_id = self.next_grooming_id + gt.len() as i32;
                proof {
                    assert(req.grooming_type is Some);
                    assert(req.grooming_type->0 == gt.deep_view());
                    assert(echo.deep_view().len() == gt.deep_view().len());
                    assert(echo@.len() == echo.deep_view().len());
                }
                if echo.len() == 0 {
                    proof {
                        assert(grooming_count(req) == 0);
                    }
                    None
                } else {
                    proof {
                        assert(grooming_count(req) > 0);
                    }
                    Some(echo)
                }
            },
            None => {
                proof {
                    assert(grooming_count(req) == 0);
                }
                None
            },
        };
        let preventive_care_echo = match &preventive_care {
            Some(pc) => {
                let echo = append_care_rows(
                    &mut self.preventive_cares,
                    &pc.treatment,
                    &pc.vet_id,
                    &service_instance_id,
                    self.next_preventive_care_id,
                );
                self.next_preventive_care_id = self.next_preventive_care_id
                    + pc.treatment.len() as i32;
                proof {
                    assert(req.preventive_care is Some);
                    assert(req.preventive_care->0 == pc.deep_view());
                    assert(req.preventive_care->0.treatment == pc.treatment.deep_view());
                    assert(echo.deep_view().len() == pc.treatment.deep_view().len());
                    assert(echo@.len() == echo.deep_view().len());
                }
                if echo.len() == 0 {
                    proof {
                        assert(care_count(req) == 0);
                    }
                    None
                } else {
                    proof {
                        assert(care_count(req) > 0);
                    }
                    Some(echo)
                }
            },
            None => {
                proof {
                    assert(care_count(req) == 0);
                }
                None
            },
        };
        let surgery_echo = match surgery {
            Some(sg) => {
                let row_id = self.next_surgery_id;
                self.surgeries.push(
                    SurgeryRow {
                        surgery_id: row_id,
                        surgery_name: sg.surgery_name.clone(),
                        anesthesia_used: Some(sg.anesthesia_used.clone()),
                        veterinarian_diagnosis: None,
                        complications: Some(sg.complications.clone()),
                        outcome: Some(sg.outcome.clone()),
                        service_instance_id: service_instance_id.clone(),
                        vet_id: sg.vet_id.clone(),
                    },
                );
                self.next_surgery_id = self.next_surgery_id + 1;
                Some(
                    Surgery {
                        surgery_id: Some(row_id),
                        surgery_name: sg.surgery_name,
                        anesthesia_used: sg.anesthesia_used,
                        veterinarian_diagnosis: sg.veterinarian_diagnosis,
                        complications: sg.complications,
                        outcome: sg.outcome,
                        service_instance_id: service_instance_id.clone(),
                        vet_id: sg.vet_id,
                    },
                )
            },
            None => None,
        };
        let result = ServiceInstance {
            service_instance_id,
            service_date,
            service_type,
            service_reason,
            general_diagnosis,
            requires_followup,
            followup_date,
            pet_id,
            grooming,
            preventive_care: preventive_care_echo,
            surgery: surgery_echo,
        };
        proof {
            let m1 = self@;
            assert(m1.instances == inst1);
            assert(m1.service_types =~= m0.service_types + tag_rows_of_req(req));
            if req.grooming_type is Some {
                assert(m1.groomings =~= m0.groomings + grooming_rows_of_req(m0, req));
            } else {
                assert(m1.groomings =~= m0.groomings + grooming_rows_of_req(m0, req));
            }
            if req.preventive_care is Some {
                assert(m1.preventive_cares =~= m0.preventive_cares + care_rows_of_req(m0, req));
            } else {
                assert(m1.preventive_cares =~= m0.preventive_cares + care_rows_of_req(m0, req));
            }
            assert(m1.surgeries =~= m0.surgeries + surgery_rows_of_req(m0, req));
            if req.grooming_type is Some && req.grooming_type->0.len() > 0 {
                assert(grooming_count(req) > 0);
                assert(result@.grooming is Some);
            } else {
                assert(grooming_count(req) == 0);
                assert(result@.grooming is None);
            }
            if req.preventive_care is Some && req.preventive_care->0.treatment.len() > 0 {
                assert(care_count(req) > 0);
                assert(result@.preventive_care is Some);
            } else {
                assert(care_count(req) == 0);
                assert(result@.preventive_care is None);
            }
            assert(result@ =~~= create_result(m0, req));
            assert(create_post(m0, req, result@, m1));
            // Well-formedness: the new child ids start at the old counters,
            // above every id already assigned, and stay below the new ones.
            assert forall|a: int, b: int|
                0 <= a < b < m1.groomings.len() implies (#[trigger] m1.groomings[a].grooming_id)
                != (#[trigger] m1.groomings[b].grooming_id) by {
                let n0 = m0.groomings.len() as int;
                if b >= n0 {
                    assert(m1.groomings[b].grooming_id as int == m0.next_grooming_id as int + (b
                        - n0));
                    if a >= n0 {
                        assert(m1.groomings[a].grooming_id as int == m0.next_grooming_id as int + (
                        a - n0));
                    } else {
                        assert(m1.groomings[a] == m0.groomings[a]);
                    }
                } else {
                    assert(m1.groomings[a] == m0.groomings[a]);
                    assert(m1.groomings[b] == m0.groomings[b]);
                }
            }
            assert forall|a: int| 0 <= a < m1.groomings.len() implies 1 <= (
            #[trigger] m1.groomings[a].grooming_id) < m1.next_grooming_id by {
                let n0 = m0.groomings.len() as int;
                if a >= n0 {
                    assert(m1.groomings[a].grooming_id as int == m0.next_grooming_id as int + (a
                        - n0));
                } else {
                    assert(m1.groomings[a] == m0.groomings[a]);
                }
            }
            assert forall|a: int, b: int|
                0 <= a < b < m1.preventive_cares.len() implies (
            #[trigger] m1.preventive_cares[a].preventive_care_id) != (
            #[trigger] m1.preventive_cares[b].preventive_care_id) by {
                let n0 = m0.preventive_cares.len() as int;
                if b >= n0 {
                    assert(m1.preventive_cares[b].preventive_care_id as int
                        == m0.next_preventive_care_id as int + (b - n0));
                    if a >= n0 {
                        assert(m1.preventive_cares[a].preventive_care_id as int
                            == m0.next_preventive_care_id as int + (a - n0));
                    } else {
                        assert(m1.preventive_cares[a] == m0.preventive_cares[a]);
                    }
                } else {
                    assert(m1.preventive_cares[a] == m0.preventive_cares[a]);
                    assert(m1.preventive_cares[b] == m0.preventive_cares[b]);
                }
            }
            assert forall|a: int| 0 <= a < m1.preventive_cares.len() implies 1 <= (
            #[trigger] m1.preventive_cares[a].preventive_care_id) < m1.next_preventive_care_id by {
                let n0 = m0.preventive_cares.len() as int;
                if a >= n0 {
                    assert(m1.preventive_cares[a].preventive_care_id as int
                        == m0.next_preventive_care_id as int + (a - n0));
                } else {
                    assert(m1.preventive_cares[a] == m0.preventive_cares[a]);
                }
            }
            assert forall|a: int, b: int|
                0 <= a < b < m1.surgeries.len() implies (#[trigger] m1.surgeries[a].surgery_id)
                != (#[trigger] m1.surgeries[b].surgery_id) by {
                let n0 = m0.surgeries.len() as int;
                if b >= n0 {
                    assert(m1.surgeries[b].surgery_id == m0.next_surgery_id);
                    if a < n0 {
                        assert(m1.surgeries[a] == m0.surgeries[a]);
                    }
                } else {
                    assert(m1.surgeries[a] == m0.surgeries[a]);
                    assert(m1.surgeries[b] == m0.surgeries[b]);
                }
            }
            assert forall|a: int| 0 <= a < m1.surgeries.len() implies 1 <= (
            #[trigger] m1.surgeries[a].surgery_id) < m1.next_surgery_id by {
                let n0 = m0.surgeries.len() as int;
                if a >= n0 {
                    assert(m1.surgeries[a].surgery_id == m0.next_surgery_id);
                } else {
                    assert(m1.surgeries[a] == m0.surgeries[a]);
                }
            }
            assert(wf_db(m1));
        }
        Ok(result)
    }

    /// Appends one grooming row per supplied type to an existing instance and
    /// returns the number of rows inserted. With no types supplied nothing is
    /// written; otherwise a missing instance or an exhausted id space aborts
    /// with a storage error and nothing changes.
    pub fn add_grooming(&mut self, service_instance_id: String, grooming_types: Vec<String>) -> (r:
        Result<u64, StoreError>)
        requires
            old(self).wf(),
        ensures
            final(self).wf(),
            r is Err ==> final(self)@ == old(self)@ && r->Err_0 == StoreError::Storage,
            (r is Err <==> grooming_types@.len() > 0 && (!has_instance(
                old(self)@.instances,
                service_instance_id@,
            ) || old(self)@.next_grooming_id as int + grooming_types@.len() > i32::MAX as int)),
            r is Ok ==> r->Ok_0 == grooming_types@.len() && final(self)@ == (DbModel {
                groomings: old(self)@.groomings + crate::db::model::grooming_rows_named(
                    old(self)@.next_grooming_id,
                    grooming_types.deep_view(),
                    service_instance_id@,
                ),
                next_grooming_id: ((old(self)@.next_grooming_id as int
                    + grooming_types@.len()) as i32),
                ..old(self)@
            }),
    {
        let ghost m0 = self@;
        if grooming_types.len() == 0 {
            proof {
                assert(self@ =~= DbModel {
                    groomings: m0.groomings + crate::db::model::grooming_rows_named(
                        m0.next_grooming_id,
                        grooming_types.deep_view(),
                        service_instance_id@,
                    ),
                    next_grooming_id: ((m0.next_grooming_id as int
                        + grooming_types@.len()) as i32),
                    ..m0
                });
            }
            return Ok(0);
        }
        let (_, found) = locate_instance(&self.instances, &service_instance_id);
        if !found {
            return Err(StoreError::Storage);
        }
        if grooming_types.len() > (i32::MAX - self.next_grooming_id) as usize {
            return Err(StoreError::Storage);
        }
        let n = grooming_types.len();
        let _echo = append_grooming_rows(
            &mut self.groomings,
            &grooming_types,
            &service_instance_id,
            self.next_grooming_id,
        );
        self.next_grooming_id = self.next_grooming_id + n as i32;
        proof {
            lemma_groomings_append_wf(
                m0.groomings,
                m0.next_grooming_id,
                grooming_types.deep_view(),
                service_instance_id@,
            );
            assert(self@ =~= DbModel {
                groomings: m0.groomings + crate::db::model::grooming_rows_named(
                    m0.next_grooming_id,
                    grooming_types.deep_view(),
                    service_instance_id@,
                ),
                next_grooming_id: ((m0.next_grooming_id as int + grooming_types@.len()) as i32),
                ..m0
            });
            assert(wf_db(self@));
        }
        Ok(n as u64)
    }

    /// Appends one preventive-care row per treatment to an existing instance,
    /// all sharing the supplied veterinarian, and returns the number of rows
    /// inserted. With no treatments nothing is written; otherwise a missing
    /// instance, a missing veterinarian or an exhausted id space aborts with
    /// a storage error and nothing changes.
    pub fn add_preventive_care(
        &mut self,
        add_preventive_care_to_existing: AddPreventiveCareToExisting,
        service_instance_id: String,
    ) -> (r: Result<u64, StoreError>)
        requires
            old(self).wf(),
        ensures
            final(self).wf(),
            r is Err ==> final(self)@ == old(self)@ && r->Err_0 == StoreError::Storage,
            (r is Err <==> add_preventive_care_to_existing.treatment@.len() > 0 && (!has_instance(
                old(self)@.instances,
                service_instance_id@,
            ) || !has_vet(old(self)@.veterinarians, add_preventive_care_to_existing.vet_id@) || old(
                self,
            )@.next_preventive_care_id as int + add_preventive_care_to_existing.treatment@.len()
                > i32::MAX as int)),
            r is Ok ==> r->Ok_0 == add_preventive_care_to_existing.treatment@.len() && final(self)@
                == (DbModel {
                preventive_cares: old(self)@.preventive_cares + crate::db::model::care_rows_named(
                    old(self)@.next_preventive_care_id,
                    add_preventive_care_to_existing.treatment.deep_view(),
                    add_preventive_care_to_existing.vet_id@,
                    service_instance_id@,
                ),
                next_preventive_care_id: ((old(self)@.next_preventive_care_id as int
                    + add_preventive_care_to_existing.treatment@.len()) as i32),
                ..old(self)@
            }),
    {
        let ghost m0 = self@;
        if add_preventive_care_to_existing.treatment.len() == 0 {
            proof {
                assert(self@ =~= DbModel {
                    preventive_cares: m0.preventive_cares
                        + crate::db::model::care_rows_named(
                        m0.next_preventive_care_id,
                        add_preventive_care_to_existing.treatment.deep_view(),
                        add_preventive_care_to_existing.vet_id@,
                        service_instance_id@,
                    ),
                    next_preventive_care_id: ((m0.next_preventive_care_id as int
                        + add_preventive_care_to_existing.treatment@.len()) as i32),
                    ..m0
                });
            }
            return Ok(0);
        }
        let (_, found) = locate_instance(&self.instances, &service_instance_id);
        if !found {
            return Err(StoreError::Storage);
        }
        if !vet_exists(&self.veterinarians, &add_preventive_care_to_existing.vet_id) {
            return Err(StoreError::Storage);
        }
        if add_preventive_care_to_existing.treatment.len() > (i32::MAX
            - self.next_preventive_care_id) as usize {
            return Err(StoreError::Storage);
        }
        let n = add_preventive_care_to_existing.treatment.len();
        let _echo = append_care_rows(
            &mut self.preventive_cares,
            &add_preventive_care_to_existing.treatment,
            &add_preventive_care_to_existing.vet_id,
            &service_instance_id,
            self.next_preventive_care_id,
        );
        self.next_preventive_care_id = self.next_preventive_care_id + n as i32;
        proof {
            lemma_cares_append_wf(
                m0.preventive_cares,
                m0.next_preventive_care_id,
                add_preventive_care_to_existing.treatment.deep_view(),
                add_preventive_care_to_existing.vet_id@,
                service_instance_id@,
            );
            assert(self@ =~= DbModel {
                preventive_cares: m0.preventive_cares + crate::db::model::care_rows_named(
                    m0.next_preventive_care_id,
                    add_preventive_care_to_existing.treatment.deep_view(),
                    add_preventive_care_to_existing.vet_id@,
                    service_instance_id@,
                ),
                next_preventive_care_id: ((m0.next_preventive_care_id as int
                    + add_preventive_care_to_existing.treatment@.len()) as i32),
                ..m0
            });
            assert(wf_db(self@));
        }
        Ok(n as u64)
    }

    /// Partially updates one surgery row by its own id: supplied fields are
    /// replaced, absent fields left untouched, and the affected-row count
    /// returned; a missing id yields zero. Re-pointing the surgery at a
    /// missing veterinarian aborts with a storage error.
    pub fn update_surgery(&mut self, update_surgery: UpdateSurgery, surgery_id: i32) -> (r: Result<
        u64,
        StoreError,
    >)
        requires
            old(self).wf(),
        ensures
            final(self).wf(),
            r is Err ==> final(self)@ == old(self)@ && r->Err_0 == StoreError::Storage,
            (r is Err <==> has_surgery(old(self)@.surgeries, surgery_id)
                && update_surgery.vet_id is Some && !has_vet(
                old(self)@.veterinarians,
                update_surgery.vet_id->0@,
            )),
            r is Ok && !has_surgery(old(self)@.surgeries, surgery_id) ==> r->Ok_0 == 0 && final(self)@ == old(self)@,
            r is Ok && has_surgery(old(self)@.surgeries, surgery_id) ==> r->Ok_0 == 1 && (exists|
                k: int,
            |
                0 <= k < old(self)@.surgeries.len() && (
                #[trigger] old(self)@.surgeries[k].surgery_id) == surgery_id && final(self)@
                    == (DbModel {
                    surgeries: old(self)@.surgeries.update(
                        k,
                        apply_surgery_update(old(self)@.surgeries[k], update_surgery@),
                    ),
                    ..old(self)@
                })),
    {
        let ghost m0 = self@;
        let k = match find_surgery_index(&self.surgeries, surgery_id) {
            Some(k) => k,
            None => {
                return Ok(0);
            },
        };
        match &update_surgery.vet_id {
            Some(v) => {
                if !vet_exists(&self.veterinarians, v) {
                    return Err(StoreError::Storage);
                }
            },
            None => {},
        }
        let new_row = SurgeryRow {
            surgery_id: self.surgeries[k].surgery_id,
            surgery_name: match &update_surgery.surgery_name {
                Some(v) => v.clone(),
                None => self.surgeries[k].surgery_name.clone(),
            },
            anesthesia_used: match &update_surgery.anesthesia_used {
                Some(v) => Some(v.clone()),
                None => self.surgeries[k].anesthesia_used.clone(),
            },
            veterinarian_diagnosis: match &update_surgery.veterinarian_diagnosis {
                Some(v) => Some(v.clone()),
                None => self.surgeries[k].veterinarian_diagnosis.clone(),
            },
            complications: match &update_surgery.complications {
                Some(v) => Some(v.clone()),
                None => self.surgeries[k].complications.clone(),
            },
            outcome: match &update_surgery.outcome {
                Some(v) => Some(v.clone()),
                None => self.surgeries[k].outcome.clone(),
            },
            service_instance_id: self.surgeries[k].service_instance_id.clone(),
            vet_id: match &update_surgery.vet_id {
                Some(v) => v.clone(),
                None => self.surgeries[k].vet_id.clone(),
            },
        };
        proof {
            assert(new_row.deep_view() =~= apply_surgery_update(
                m0.surgeries[k as int],
                update_surgery@,
            ));
        }
        self.surgeries.set(k, new_row);
        proof {
            assert(self@ =~= DbModel {
                surgeries: m0.surgeries.update(
                    k as int,
                    apply_surgery_update(m0.surgeries[k as int], update_surgery@),
                ),
                ..m0
            });
            assert forall|a: int, b: int|
                0 <= a < b < self@.surgeries.len() implies (
            #[trigger] self@.surgeries[a].surgery_id) != (
            #[trigger] self@.surgeries[b].surgery_id) by {
                assert(self@.surgeries[a].surgery_id == m0.surgeries[a].surgery_id);
                assert(self@.surgeries[b].surgery_id == m0.surgeries[b].surgery_id);
            }
            assert forall|a: int| 0 <= a < self@.surgeries.len() implies 1 <= (
            #[trigger] self@.surgeries[a].surgery_id) < self@.next_surgery_id by {
                assert(self@.surgeries[a].surgery_id == m0.surgeries[a].surgery_id);
            }
            assert(wf_db(self@));
        }
        Ok(1)
    }

    /// Updates one service instance: a supplied tag list first replaces the
    /// instance's whole tag set (delete all, insert the new labels, as one
    /// unit that fails outright when the instance is absent), then the
    /// supplied scalar fields are written in one partial update whose
    /// affected-row count is returned; the tag replacement's row count is not
    /// reflected in it. A missing instance yields zero rows affected.
    pub fn update_service_instance(
        &mut self,
        update_service_instance: UpdateServiceInstance,
        service_instance_id: String,
    ) -> (r: Result<u64, StoreError>)
        requires
            old(self).wf(),
        ensures
            final(self).wf(),
            r is Err ==> final(self)@ == old(self)@ && r->Err_0 == StoreError::Storage,
            (r is Err <==> (update_service_instance.service_type is Some && !has_instance(
                old(self)@.instances,
                service_instance_id@,
            ))),
            r is Ok ==> ({
                let m_tags = if update_service_instance.service_type is Some {
                    DbModel {
                        service_types: replace_tags(
                            old(self)@.service_types,
                            service_instance_id@,
                            update_service_instance@.service_type->0,
                        ),
                        ..old(self)@
                    }
                } else {
                    old(self)@
                };
                &&& (!has_instance(old(self)@.instances, service_instance_id@) ==> r->Ok_0 == 0
                    && final(self)@ == m_tags)
                &&& (has_instance(old(self)@.instances, service_instance_id@) ==> r->Ok_0 == 1 && (
                exists|k: int|
                    0 <= k < old(self)@.instances.len() && (
                    #[trigger] old(self)@.instances[k].service_instance_id)
                        == service_instance_id@ && final(self)@ == (DbModel {
                        instances: old(self)@.instances.update(
                            k,
                            apply_instance_update(
                                old(self)@.instances[k],
                                update_service_instance@,
                            ),
                        ),
                        ..m_tags
                    })))
            }),
    {
        let ghost m0 = self@;
        let (k, found) = locate_instance(&self.instances, &service_instance_id);
        match &update_service_instance.service_type {
            Some(new_tags) => {
                if !found {
                    return Err(StoreError::Storage);
                }
                let kept = retain_other_tags(&self.service_types, &service_instance_id);
                self.service_types = kept;
                append_tag_rows(&mut self.service_types, new_tags, &service_instance_id);
                proof {
                    assert(self.service_types.deep_view() =~= replace_tags(
                        m0.service_types,
                        service_instance_id@,
                        update_service_instance@.service_type->0,
                    ));
                }
            },
            None => {},
        }
        let ghost m_tags = self@;
        if !found {
            proof {
                assert(update_service_instance.service_type is None);
                assert(m_tags == m0);
            }
            return Ok(0);
        }
        let new_row = ServiceInstanceRow {
            service_instance_id: self.instances[k].service_instance_id.clone(),
            service_date: match &update_service_instance.service_date {
                Some(v) => v.clone(),
                None => self.instances[k].service_date.clone(),
            },
            service_reason: match &update_service_instance.service_reason {
                Some(v) => v.clone(),
                None => self.instances[k].service_reason.clone(),
            },
            general_diagnosis: match &update_service_instance.general_diagnosis {
                Some(v) => v.clone(),
                None => self.instances[k].general_diagnosis.clone(),
            },
            requires_followup: match &update_service_instance.requires_followup {
                Some(v) => *v,
                None => self.instances[k].requires_followup,
            },
            followup_date: match &update_service_instance.followup_date {
                Some(v) => Some(v.clone()),
                None => self.instances[k].followup_date.clone(),
            },
            pet_id: self.instances[k].pet_id.clone(),
        };
        proof {
            assert(new_row.deep_view() =~= apply_instance_update(
                m0.instances[k as int],
                update_service_instance@,
            ));
        }
        self.instances.set(k, new_row);
        proof {
            assert(self@ =~= DbModel {
                instances: m0.instances.update(
                    k as int,
                    apply_instance_update(m0.instances[k as int], update_service_instance@),
                ),
                ..m_tags
            });
            assert forall|a: int, b: int| 0 <= a < b < self@.instances.len() implies str_lt(
                (#[trigger] self@.instances[a]).service_instance_id,
                (#[trigger] self@.instances[b]).service_instance_id,
            ) by {
                assert(self@.instances[a].service_instance_id
                    == m0.instances[a].service_instance_id);
                assert(self@.instances[b].service_instance_id
                    == m0.instances[b].service_instance_id);
            }
            assert(wf_db(self@));
        }
        Ok(1)
    }

    /// A pet's service history: one entry per instance of the pet, ascending
    /// by instance id, each carrying all of that instance's tags as one list
    /// (an instance without tags keeps an empty list rather than a null
    /// entry), windowed by `limit` and `offset` whole entries at a time. A
    /// negative limit or offset is a malformed statement and aborts with a
    /// storage error.
    pub fn get_services_history_of_pet(&self, limit: i32, offset: i32, pet_id: String) -> (r:
        Result<Vec<GetServicesHistoryModel>, StoreError>)
        requires
            self.wf(),
        ensures
            (r is Err <==> limit < 0 || offset < 0),
            r is Err ==> r->Err_0 == StoreError::Storage,
            r is Ok ==> r->Ok_0.deep_view() == page_of(
                history_of(self@, pet_id@),
                limit as int,
                offset as int,
            ),
    {
        if limit < 0 || offset < 0 {
            return Err(StoreError::Storage);
        }
        let ghost m = self@;
        let mut entries: Vec<GetServicesHistoryModel> = Vec::new();
        let mut i: usize = 0;
        proof {
            assert(m.instances.take(0) =~= Seq::<crate::db::rows::ServiceInstanceRowV>::empty());
            assert(entries.deep_view() =~= history_of_prefix(m, pet_id@, 0));
        }
        while i < self.instances.len()
            invariant
                self.wf(),
                m == self@,
                i <= self.instances@.len(),
                entries.deep_view() == history_of_prefix(m, pet_id@, i as int),
            decreases self.instances@.len() - i,
        {
            let ghost pre = entries.deep_view();
            let ghost rows0 = pet_instances_of(m.instances.take(i as int), pet_id@);
            if self.instances[i].pet_id == pet_id {
                let tags = collect_tag_names(
                    &self.service_types,
                    &self.instances[i].service_instance_id,
                );
                let entry = GetServicesHistoryModel {
                    service_instance_id: self.instances[i].service_instance_id.clone(),
                    service_date: self.instances[i].service_date.clone(),
                    service_type: tags,
                    service_reason: self.instances[i].service_reason.clone(),
                    general_diagnosis: self.instances[i].general_diagnosis.clone(),
                    requires_followup: self.instances[i].requires_followup,
                    followup_date: self.instances[i].followup_date.clone(),
                };
                let ghost ev = entry.deep_view();
                proof {
                    assert(ev == history_entry_of(m, m.instances[i as int]));
                }
                entries.push(entry);
                proof {
                    assert(entries.deep_view() =~= pre.push(ev));
                }
            }
            proof {
                assert(m.instances.take(i as int + 1).drop_last() =~= m.instances.take(i as int));
                assert(m.instances.take(i as int + 1).last() == m.instances[i as int]);
                let rows1 = pet_instances_of(m.instances.take(i as int + 1), pet_id@);
                if m.instances[i as int].pet_id == pet_id@ {
                    assert(rows1 == rows0.push(m.instances[i as int]));
                    assert(entries.deep_view() =~= history_of_prefix(m, pet_id@, i as int + 1));
                } else {
                    assert(rows1 == rows0);
                    assert(entries.deep_view() =~= history_of_prefix(m, pet_id@, i as int + 1));
                }
            }
            i = i + 1;
        }
        let ghost full = history_of(m, pet_id@);
        proof {
            assert(m.instances.take(self.instances@.len() as int) =~= m.instances);
            assert(entries.deep_view() =~= full);
        }
        let total = entries.len();
        let lo: usize = if offset as usize > total {
            total
        } else {
            offset as usize
        };
        let hi64: u64 = offset as u64 + limit as u64;
        let hi: usize = if hi64 > total as u64 {
            total
        } else {
            hi64 as usize
        };
        proof {
            assert(page_of(full, limit as int, offset as int) =~= full.subrange(
                lo as int,
                hi as int,
            ));
        }
        let mut out: Vec<GetServicesHistoryModel> = Vec::new();
        let mut t: usize = 0;
        proof {
            assert(entries.deep_view() =~= full.subrange(0, lo as int) + full.subrange(
                lo as int,
                total as int,
            ));
            assert(out.deep_view() =~= full.subrange(lo as int, lo as int));
        }
        while t < hi - lo
            invariant
                lo <= hi <= total,
                total == full.len(),
                t <= hi - lo,
                entries.deep_view() == full.subrange(0, lo as int) + full.subrange(
                    lo as int + t as int,
                    total as int,
                ),
                out.deep_view() == full.subrange(lo as int, lo as int + t as int),
            decreases hi - lo - t,
        {
            let ghost pre_entries = entries.deep_view();
            let ghost pre_out = out.deep_view();
            proof {
                assert(pre_entries.len() == lo as int + (total as int - lo as int - t as int));
                assert(entries@.len() == pre_entries.len());
                assert(lo < entries@.len());
            }
            let entry = entries.remove(lo);
            let ghost ev = entry.deep_view();
            proof {
                assert(ev == pre_entries[lo as int]);
                assert(ev == full[lo as int + t as int]);
            }
            out.push(entry);
            proof {
                assert(out.deep_view() =~= pre_out.push(ev));
                assert(out.deep_view() =~= full.subrange(lo as int, lo as int + t as int + 1));
                assert(entries.deep_view() =~= pre_entries.remove(lo as int));
                assert(entries.deep_view() =~= full.subrange(0, lo as int) + full.subrange(
                    lo as int + t as int + 1,
                    total as int,
                ));
            }
            t = t + 1;
        }
        proof {
            assert(out.deep_view() =~= full.subrange(lo as int, hi as int));
        }
        Ok(out)
    }
}

} // verus!

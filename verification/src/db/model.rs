//! The abstract relational model of the aggregate store: a snapshot of the
//! five tables plus the auto-increment counters, and the spec functions that
//! describe each operation's guard, effect and read-back. Every contract of
//! the store speaks in this vocabulary.

use vstd::prelude::*;

use crate::db::rows::{
    GroomingRowV, PreventiveCareRowV, ServiceInstanceRowV, ServiceTypeRowV, SurgeryRowV,
};
use crate::models::service_instance_model::{
    GetServicesHistoryModelV, GroomingModelV, PreventiveCareModelV, ServiceInstanceModelV,
    SurgeryModelV,
};
use crate::models::vet_model::{VetModelForServiceV, VetModelV};
use crate::schemas::service_instance_schema::{
    AddPreventiveCareV, AddSurgeryV, GroomingV, PreventiveCareV, ServiceInstanceV, SurgeryV,
    UpdateServiceInstanceV, UpdateSurgeryV,
};
use crate::utils::text::str_lt;

verus! {

/// One abstract state of the store: the relational tables as sequences of
/// row values, and the next id each auto-increment column will assign.
#[verifier::ext_equal]
pub ghost struct DbModel {
    pub instances: Seq<ServiceInstanceRowV>,
    pub service_types: Seq<ServiceTypeRowV>,
    pub groomings: Seq<GroomingRowV>,
    pub preventive_cares: Seq<PreventiveCareRowV>,
    pub surgeries: Seq<SurgeryRowV>,
    pub veterinarians: Seq<VetModelV>,
    pub pet_ids: Seq<Seq<char>>,
    pub next_grooming_id: i32,
    pub next_preventive_care_id: i32,
    pub next_surgery_id: i32,
}

/// The state of a freshly created store: every table empty, every counter at
/// one.
pub open spec fn empty_db() -> DbModel {
    DbModel {
        instances: Seq::<ServiceInstanceRowV>::empty(),
        service_types: Seq::<ServiceTypeRowV>::empty(),
        groomings: Seq::<GroomingRowV>::empty(),
        preventive_cares: Seq::<PreventiveCareRowV>::empty(),
        surgeries: Seq::<SurgeryRowV>::empty(),
        veterinarians: Seq::<VetModelV>::empty(),
        pet_ids: Seq::<Seq<char>>::empty(),
        next_grooming_id: 1,
        next_preventive_care_id: 1,
        next_surgery_id: 1,
    }
}

/// The instance table is kept strictly ascending by instance id; ascending
/// order doubles as primary-key uniqueness.
pub open spec fn instances_sorted(s: Seq<ServiceInstanceRowV>) -> bool {
    forall|i: int, j: int|
        0 <= i < j < s.len() ==> str_lt(
            #[trigger] s[i].service_instance_id,
            #[trigger] s[j].service_instance_id,
        )
}

/// Well-formedness of a store state: the instance table sorted (hence
/// duplicate-free), every assigned child id unique and below its table's
/// counter, counters at least one, and the externally owned veterinarian and
/// pet tables duplicate-free.
pub open spec fn wf_db(m: DbModel) -> bool {
    &&& instances_sorted(m.instances)
    &&& forall|i: int, j: int|
        0 <= i < j < m.groomings.len() ==> (#[trigger] m.groomings[i].grooming_id)
            != (#[trigger] m.groomings[j].grooming_id)
    &&& forall|i: int|
        0 <= i < m.groomings.len() ==> 1 <= (#[trigger] m.groomings[i].grooming_id)
            < m.next_grooming_id
    &&& forall|i: int, j: int|
        0 <= i < j < m.preventive_cares.len() ==> (
        #[trigger] m.preventive_cares[i].preventive_care_id) != (
        #[trigger] m.preventive_cares[j].preventive_care_id)
    &&& forall|i: int|
        0 <= i < m.preventive_cares.len() ==> 1 <= (
        #[trigger] m.preventive_cares[i].preventive_care_id) < m.next_preventive_care_id
    &&& forall|i: int, j: int|
        0 <= i < j < m.surgeries.len() ==> (#[trigger] m.surgeries[i].surgery_id)
            != (#[trigger] m.surgeries[j].surgery_id)
    &&& forall|i: int|
        0 <= i < m.surgeries.len() ==> 1 <= (#[trigger] m.surgeries[i].surgery_id)
            < m.next_surgery_id
    &&& forall|i: int, j: int|
        0 <= i < j < m.veterinarians.len() ==> (#[trigger] m.veterinarians[i].vet_id) != (
        #[trigger] m.veterinarians[j].vet_id)
    &&& forall|i: int, j: int|
        0 <= i < j < m.pet_ids.len() ==> (#[trigger] m.pet_ids[i]) != (#[trigger] m.pet_ids[j])
    &&& m.next_grooming_id >= 1
    &&& m.next_preventive_care_id >= 1
    &&& m.next_surgery_id >= 1
}

/// Whether an instance row with the given id exists.
pub open spec fn has_instance(s: Seq<ServiceInstanceRowV>, id: Seq<char>) -> bool {
    exists|i: int| 0 <= i < s.len() && (#[trigger] s[i].service_instance_id) == id
}

/// The first instance row with the given id, if any.
pub open spec fn find_instance(s: Seq<ServiceInstanceRowV>, id: Seq<char>) -> Option<
    ServiceInstanceRowV,
>
    decreases s.len(),
{
    if s.len() == 0 {
        None
    } else if s[0].service_instance_id == id {
        Some(s[0])
    } else {
        find_instance(s.drop_first(), id)
    }
}

/// Finding an instance row succeeds exactly when one exists, and what is
/// found carries the id looked for.
pub proof fn lemma_find_instance_exists(s: Seq<ServiceInstanceRowV>, id: Seq<char>)
    ensures
        find_instance(s, id) is Some <==> has_instance(s, id),
        find_instance(s, id) is Some ==> s.contains(find_instance(s, id)->0) && find_instance(
            s,
            id,
        )->0.service_instance_id == id,
    decreases s.len(),
{
    if s.len() > 0 {
        if s[0].service_instance_id == id {
        } else {
            lemma_find_instance_exists(s.drop_first(), id);
            if has_instance(s, id) {
                let i = choose|i: int|
                    0 <= i < s.len() && (#[trigger] s[i].service_instance_id) == id;
                assert(s.drop_first()[i - 1].service_instance_id == id);
            }
            if find_instance(s.drop_first(), id) is Some {
                assert(s.contains(find_instance(s, id)->0)) by {
                    let r = find_instance(s.drop_first(), id)->0;
                    let i = choose|i: int| 0 <= i < s.drop_first().len() && s.drop_first()[i] == r;
                    assert(s[i + 1] == r);
                }
            }
        }
    }
}

/// In a sorted table, the row found for an id is the row at any index that
/// carries it.
pub proof fn lemma_sorted_find_instance(s: Seq<ServiceInstanceRowV>, k: int, id: Seq<char>)
    requires
        instances_sorted(s),
        0 <= k < s.len(),
        s[k].service_instance_id == id,
    ensures
        find_instance(s, id) == Some(s[k]),
{
    lemma_find_instance_exists(s, id);
    let r = find_instance(s, id)->0;
    let j = choose|j: int| 0 <= j < s.len() && s[j] == r;
    if j < k {
        crate::utils::text::lemma_str_lt_irreflexive(id);
    } else if j > k {
        crate::utils::text::lemma_str_lt_irreflexive(id);
    }
}

/// Whether a pet with the given id exists.
pub open spec fn has_pet(s: Seq<Seq<char>>, id: Seq<char>) -> bool {
    exists|i: int| 0 <= i < s.len() && (#[trigger] s[i]) == id
}

/// The first veterinarian row with the given id, if any.
pub open spec fn find_vet(s: Seq<VetModelV>, id: Seq<char>) -> Option<VetModelV>
    decreases s.len(),
{
    if s.len() == 0 {
        None
    } else if s[0].vet_id == id {
        Some(s[0])
    } else {
        find_vet(s.drop_first(), id)
    }
}

/// Whether a veterinarian with the given id exists.
pub open spec fn has_vet(s: Seq<VetModelV>, id: Seq<char>) -> bool {
    find_vet(s, id) is Some
}

/// Finding a veterinarian succeeds exactly when a row with the id exists,
/// and what is found carries that id.
pub proof fn lemma_find_vet_exists(s: Seq<VetModelV>, id: Seq<char>)
    ensures
        find_vet(s, id) is Some <==> exists|i: int|
            0 <= i < s.len() && (#[trigger] s[i].vet_id) == id,
        find_vet(s, id) is Some ==> s.contains(find_vet(s, id)->0) && find_vet(s, id)->0.vet_id
            == id,
    decreases s.len(),
{
    if s.len() > 0 {
        if s[0].vet_id == id {
        } else {
            lemma_find_vet_exists(s.drop_first(), id);
            if exists|i: int| 0 <= i < s.len() && (#[trigger] s[i].vet_id) == id {
                let i = choose|i: int| 0 <= i < s.len() && (#[trigger] s[i].vet_id) == id;
                assert(s.drop_first()[i - 1].vet_id == id);
            }
            if find_vet(s.drop_first(), id) is Some {
                assert(s.contains(find_vet(s, id)->0)) by {
                    let r = find_vet(s.drop_first(), id)->0;
                    let i = choose|i: int| 0 <= i < s.drop_first().len() && s.drop_first()[i] == r;
                    assert(s[i + 1] == r);
                }
            }
        }
    }
}

/// Whether a grooming row with the given id exists.
pub open spec fn has_grooming(s: Seq<GroomingRowV>, id: i32) -> bool {
    exists|i: int| 0 <= i < s.len() && (#[trigger] s[i].grooming_id) == id
}

/// Whether a preventive-care row with the given id exists.
pub open spec fn has_care(s: Seq<PreventiveCareRowV>, id: i32) -> bool {
    exists|i: int| 0 <= i < s.len() && (#[trigger] s[i].preventive_care_id) == id
}

/// Whether a surgery row with the given id exists.
pub open spec fn has_surgery(s: Seq<SurgeryRowV>, id: i32) -> bool {
    exists|i: int| 0 <= i < s.len() && (#[trigger] s[i].surgery_id) == id
}

/// The veterinarian sub-view embedded into child results.
pub open spec fn vet_service_view(v: VetModelV) -> VetModelForServiceV {
    VetModelForServiceV {
        vet_name: v.vet_name,
        vet_email: v.vet_email,
        vet_phone_number: v.vet_phone_number,
        vet_license_number: v.vet_license_number,
    }
}

/// The tag names bound to an instance, in table order.
pub open spec fn tag_names_of(tags: Seq<ServiceTypeRowV>, id: Seq<char>) -> Seq<Seq<char>>
    decreases tags.len(),
{
    if tags.len() == 0 {
        Seq::<Seq<char>>::empty()
    } else {
        let rest = tag_names_of(tags.drop_last(), id);
        if tags.last().service_instance_id == id {
            rest.push(tags.last().service_type_name)
        } else {
            rest
        }
    }
}

/// The tag rows not bound to an instance, in table order: what a tag-set
/// replacement keeps.
pub open spec fn tag_rows_except(tags: Seq<ServiceTypeRowV>, id: Seq<char>) -> Seq<ServiceTypeRowV>
    decreases tags.len(),
{
    if tags.len() == 0 {
        Seq::<ServiceTypeRowV>::empty()
    } else {
        let rest = tag_rows_except(tags.drop_last(), id);
        if tags.last().service_instance_id == id {
            rest
        } else {
            rest.push(tags.last())
        }
    }
}

/// The grooming entries of an instance, in table order, as read-side models.
pub open spec fn grooming_models_of(gs: Seq<GroomingRowV>, id: Seq<char>) -> Seq<GroomingModelV>
    decreases gs.len(),
{
    if gs.len() == 0 {
        Seq::<GroomingModelV>::empty()
    } else {
        let rest = grooming_models_of(gs.drop_last(), id);
        if gs.last().service_instance_id == id {
            rest.push(
                GroomingModelV {
                    grooming_id: gs.last().grooming_id,
                    grooming_type: gs.last().grooming_type,
                },
            )
        } else {
            rest
        }
    }
}

/// The preventive-care rows of an instance, in table order.
pub open spec fn care_rows_of(cs: Seq<PreventiveCareRowV>, id: Seq<char>) -> Seq<
    PreventiveCareRowV,
>
    decreases cs.len(),
{
    if cs.len() == 0 {
        Seq::<PreventiveCareRowV>::empty()
    } else {
        let rest = care_rows_of(cs.drop_last(), id);
        if cs.last().service_instance_id == id {
            rest.push(cs.last())
        } else {
            rest
        }
    }
}

/// The surgery rows of an instance, in table order.
pub open spec fn surgery_rows_of(ss: Seq<SurgeryRowV>, id: Seq<char>) -> Seq<SurgeryRowV>
    decreases ss.len(),
{
    if ss.len() == 0 {
        Seq::<SurgeryRowV>::empty()
    } else {
        let rest = surgery_rows_of(ss.drop_last(), id);
        if ss.last().service_instance_id == id {
            rest.push(ss.last())
        } else {
            rest
        }
    }
}

/// The instance rows of a pet, in table order (hence ascending by id).
pub open spec fn pet_instances_of(s: Seq<ServiceInstanceRowV>, pet_id: Seq<char>) -> Seq<
    ServiceInstanceRowV,
>
    decreases s.len(),
{
    if s.len() == 0 {
        Seq::<ServiceInstanceRowV>::empty()
    } else {
        let rest = pet_instances_of(s.drop_last(), pet_id);
        if s.last().pet_id == pet_id {
            rest.push(s.last())
        } else {
            rest
        }
    }
}

/// One preventive-care result with its veterinarian embedded.
pub open spec fn care_model_of(row: PreventiveCareRowV, vet: VetModelV) -> PreventiveCareModelV {
    PreventiveCareModelV {
        preventive_care_id: row.preventive_care_id,
        treatment: row.treatment,
        vet: vet_service_view(vet),
    }
}

/// One surgery result with its veterinarian embedded.
pub open spec fn surgery_model_of(row: SurgeryRowV, vet: VetModelV) -> SurgeryModelV {
    SurgeryModelV {
        surgery_id: row.surgery_id,
        surgery_name: row.surgery_name,
        veterinarian_diagnosis: row.veterinarian_diagnosis,
        anesthesia_used: row.anesthesia_used,
        complications: row.complications,
        outcome: row.outcome,
        vet: vet_service_view(vet),
    }
}

/// The preventive-care results drawn from the given care rows, each with its
/// veterinarian looked up in the given table and embedded.
pub open spec fn care_models_from(
    cs: Seq<PreventiveCareRowV>,
    vets: Seq<VetModelV>,
    id: Seq<char>,
) -> Seq<PreventiveCareModelV> {
    let rows = care_rows_of(cs, id);
    Seq::new(rows.len(), |i: int| care_model_of(rows[i], find_vet(vets, rows[i].vet_id)->0))
}

/// The preventive-care results of an instance.
pub open spec fn care_models_of(m: DbModel, id: Seq<char>) -> Seq<PreventiveCareModelV> {
    care_models_from(m.preventive_cares, m.veterinarians, id)
}

/// The surgery results drawn from the given surgery rows, each with its
/// veterinarian embedded.
pub open spec fn surgery_models_from(
    ss: Seq<SurgeryRowV>,
    vets: Seq<VetModelV>,
    id: Seq<char>,
) -> Seq<SurgeryModelV> {
    let rows = surgery_rows_of(ss, id);
    Seq::new(rows.len(), |i: int| surgery_model_of(rows[i], find_vet(vets, rows[i].vet_id)->0))
}

/// The surgery results of an instance.
pub open spec fn surgery_models_of(m: DbModel, id: Seq<char>) -> Seq<SurgeryModelV> {
    surgery_models_from(m.surgeries, m.veterinarians, id)
}

/// Every veterinarian referenced by the instance's preventive-care rows
/// exists; the detail read fails otherwise.
pub open spec fn care_vets_present(m: DbModel, id: Seq<char>) -> bool {
    forall|i: int|
        0 <= i < m.preventive_cares.len() && (
        #[trigger] m.preventive_cares[i]).service_instance_id == id ==> has_vet(
            m.veterinarians,
            m.preventive_cares[i].vet_id,
        )
}

/// Every veterinarian referenced by the instance's surgery rows exists.
pub open spec fn surgery_vets_present(m: DbModel, id: Seq<char>) -> bool {
    forall|i: int|
        0 <= i < m.surgeries.len() && (#[trigger] m.surgeries[i]).service_instance_id == id
            ==> has_vet(m.veterinarians, m.surgeries[i].vet_id)
}

/// The detail read succeeds exactly when the parent row exists and every
/// referenced veterinarian can be looked up.
pub open spec fn detail_ok(m: DbModel, id: Seq<char>) -> bool {
    &&& has_instance(m.instances, id)
    &&& care_vets_present(m, id)
    &&& surgery_vets_present(m, id)
}

/// An empty child collection is reported as absent, never as an empty list.
pub open spec fn collapse<T>(s: Seq<T>) -> Option<Seq<T>> {
    if s.len() == 0 {
        None
    } else {
        Some(s)
    }
}

/// The fully assembled detail view of an instance: the parent's scalar
/// fields, all of its tags, and its child collections collapsed when empty.
/// Only the first surgery row is exposed.
pub open spec fn instance_detail(m: DbModel, id: Seq<char>) -> ServiceInstanceModelV {
    let row = find_instance(m.instances, id)->0;
    let groomings = grooming_models_of(m.groomings, id);
    let cares = care_models_of(m, id);
    let surgeries = surgery_models_of(m, id);
    ServiceInstanceModelV {
        service_instance_id: row.service_instance_id,
        service_date: row.service_date,
        service_type: tag_names_of(m.service_types, id),
        service_reason: row.service_reason,
        general_diagnosis: row.general_diagnosis,
        requires_followup: row.requires_followup,
        pet_id: row.pet_id,
        followup_date: row.followup_date,
        grooming: collapse(groomings),
        preventive_care: collapse(cares),
        surgery: if surgeries.len() == 0 {
            None
        } else {
            Some(surgeries[0])
        },
    }
}

/// One history entry: an instance's scalar fields with all of its tags
/// gathered into one list (an instance without tags gets the empty list, not
/// a null entry).
pub open spec fn history_entry_of(m: DbModel, row: ServiceInstanceRowV) -> GetServicesHistoryModelV {
    GetServicesHistoryModelV {
        service_instance_id: row.service_instance_id,
        service_date: row.service_date,
        service_type: tag_names_of(m.service_types, row.service_instance_id),
        service_reason: row.service_reason,
        general_diagnosis: row.general_diagnosis,
        requires_followup: row.requires_followup,
        followup_date: row.followup_date,
    }
}

/// A pet's full history, one entry per instance, ascending by instance id.
pub open spec fn history_of(m: DbModel, pet_id: Seq<char>) -> Seq<GetServicesHistoryModelV> {
    let rows = pet_instances_of(m.instances, pet_id);
    Seq::new(rows.len(), |i: int| history_entry_of(m, rows[i]))
}

/// A pet's history drawn from the first `n` instance rows only; the loop
/// assembling the history grows this prefix one row at a time.
pub open spec fn history_of_prefix(m: DbModel, pet_id: Seq<char>, n: int) -> Seq<
    GetServicesHistoryModelV,
> {
    let rows = pet_instances_of(m.instances.take(n), pet_id);
    Seq::new(rows.len(), |i: int| history_entry_of(m, rows[i]))
}

/// Appending grooming rows with ids handed out by the counter keeps the ids
/// unique and bounded.
pub proof fn lemma_groomings_append_wf(
    rows: Seq<GroomingRowV>,
    next0: i32,
    types: Seq<Seq<char>>,
    id: Seq<char>,
)
    requires
        forall|i: int, j: int|
            0 <= i < j < rows.len() ==> (#[trigger] rows[i].grooming_id) != (
            #[trigger] rows[j].grooming_id),
        forall|i: int| 0 <= i < rows.len() ==> 1 <= (#[trigger] rows[i].grooming_id) < next0,
        next0 >= 1,
        next0 as int + types.len() <= i32::MAX as int,
    ensures
        ({
            let all = rows + grooming_rows_named(next0, types, id);
            &&& (forall|i: int, j: int|
                0 <= i < j < all.len() ==> (#[trigger] all[i].grooming_id) != (
                #[trigger] all[j].grooming_id))
            &&& (forall|i: int|
                0 <= i < all.len() ==> 1 <= (#[trigger] all[i].grooming_id) < ((
                next0 as int + types.len()) as i32))
        }),
{
    let all = rows + grooming_rows_named(next0, types, id);
    let n0 = rows.len() as int;
    assert forall|i: int, j: int|
        0 <= i < j < all.len() implies (#[trigger] all[i].grooming_id) != (
    #[trigger] all[j].grooming_id) by {
        if j >= n0 {
            assert(all[j].grooming_id as int == next0 as int + (j - n0));
            if i >= n0 {
                assert(all[i].grooming_id as int == next0 as int + (i - n0));
            } else {
                assert(all[i] == rows[i]);
            }
        } else {
            assert(all[i] == rows[i]);
            assert(all[j] == rows[j]);
        }
    }
    assert forall|i: int| 0 <= i < all.len() implies 1 <= (#[trigger] all[i].grooming_id) < ((
    next0 as int + types.len()) as i32) by {
        if i >= n0 {
            assert(all[i].grooming_id as int == next0 as int + (i - n0));
        } else {
            assert(all[i] == rows[i]);
        }
    }
}

/// Appending preventive-care rows with ids handed out by the counter keeps
/// the ids unique and bounded.
pub proof fn lemma_cares_append_wf(
    rows: Seq<PreventiveCareRowV>,
    next0: i32,
    treatments: Seq<Seq<char>>,
    vet_id: Seq<char>,
    id: Seq<char>,
)
    requires
        forall|i: int, j: int|
            0 <= i < j < rows.len() ==> (#[trigger] rows[i].preventive_care_id) != (
            #[trigger] rows[j].preventive_care_id),
        forall|i: int|
            0 <= i < rows.len() ==> 1 <= (#[trigger] rows[i].preventive_care_id) < next0,
        next0 >= 1,
        next0 as int + treatments.len() <= i32::MAX as int,
    ensures
        ({
            let all = rows + care_rows_named(next0, treatments, vet_id, id);
            &&& (forall|i: int, j: int|
                0 <= i < j < all.len() ==> (#[trigger] all[i].preventive_care_id) != (
                #[trigger] all[j].preventive_care_id))
            &&& (forall|i: int|
                0 <= i < all.len() ==> 1 <= (#[trigger] all[i].preventive_care_id) < ((
                next0 as int + treatments.len()) as i32))
        }),
{
    let all = rows + care_rows_named(next0, treatments, vet_id, id);
    let n0 = rows.len() as int;
    assert forall|i: int, j: int|
        0 <= i < j < all.len() implies (#[trigger] all[i].preventive_care_id) != (
    #[trigger] all[j].preventive_care_id) by {
        if j >= n0 {
            assert(all[j].preventive_care_id as int == next0 as int + (j - n0));
            if i >= n0 {
                assert(all[i].preventive_care_id as int == next0 as int + (i - n0));
            } else {
                assert(all[i] == rows[i]);
            }
        } else {
            assert(all[i] == rows[i]);
            assert(all[j] == rows[j]);
        }
    }
    assert forall|i: int| 0 <= i < all.len() implies 1 <= (#[trigger] all[i].preventive_care_id)
        < ((next0 as int + treatments.len()) as i32) by {
        if i >= n0 {
            assert(all[i].preventive_care_id as int == next0 as int + (i - n0));
        } else {
            assert(all[i] == rows[i]);
        }
    }
}

/// The window `[offset, offset + limit)` of a sequence, clipped to its
/// bounds.
pub open spec fn page_of<T>(s: Seq<T>, limit: int, offset: int) -> Seq<T> {
    let lo = if offset < 0 { 0 } else if offset > s.len() { s.len() as int } else { offset };
    let hi = if offset + limit < lo { lo } else if offset + limit > s.len() { s.len() as int } else { offset + limit };
    s.subrange(lo, hi)
}

/// Everything the aggregate-create operation takes, as one spec-level value.
#[verifier::ext_equal]
pub ghost struct CreateRequestV {
    pub service_instance_id: Seq<char>,
    pub service_date: Seq<char>,
    pub service_type: Seq<Seq<char>>,
    pub service_reason: Seq<char>,
    pub general_diagnosis: Seq<char>,
    pub requires_followup: bool,
    pub followup_date: Option<Seq<char>>,
    pub pet_id: Seq<char>,
    pub grooming_type: Option<Seq<Seq<char>>>,
    pub preventive_care: Option<AddPreventiveCareV>,
    pub surgery: Option<AddSurgeryV>,
}

/// How many grooming rows the request inserts.
pub open spec fn grooming_count(req: CreateRequestV) -> int {
    if req.grooming_type is Some {
        req.grooming_type->0.len() as int
    } else {
        0
    }
}

/// How many preventive-care rows the request inserts.
pub open spec fn care_count(req: CreateRequestV) -> int {
    if req.preventive_care is Some {
        req.preventive_care->0.treatment.len() as int
    } else {
        0
    }
}

/// How many surgery rows the request inserts.
pub open spec fn surgery_count(req: CreateRequestV) -> int {
    if req.surgery is Some {
        1
    } else {
        0
    }
}

/// The create aborts with a duplicate-key conflict when the instance id is
/// already taken.
pub open spec fn create_conflict(m: DbModel, req: CreateRequestV) -> bool {
    has_instance(m.instances, req.service_instance_id)
}

/// The foreign keys a create touches: the pet always, the preventive-care
/// veterinarian when at least one treatment row is inserted, and the surgery
/// veterinarian when a surgery is supplied.
pub open spec fn create_fk_ok(m: DbModel, req: CreateRequestV) -> bool {
    &&& has_pet(m.pet_ids, req.pet_id)
    &&& care_count(req) > 0 ==> has_vet(m.veterinarians, req.preventive_care->0.vet_id)
    &&& req.surgery is Some ==> has_vet(m.veterinarians, req.surgery->0.vet_id)
}

/// Every child row the create inserts must still get an id from its table's
/// counter.
pub open spec fn create_ids_ok(m: DbModel, req: CreateRequestV) -> bool {
    &&& m.next_grooming_id as int + grooming_count(req) <= i32::MAX as int
    &&& m.next_preventive_care_id as int + care_count(req) <= i32::MAX as int
    &&& m.next_surgery_id as int + surgery_count(req) <= i32::MAX as int
}

/// The create succeeds exactly when the id is fresh, the foreign keys
/// resolve, and the id space suffices.
pub open spec fn create_ok(m: DbModel, req: CreateRequestV) -> bool {
    &&& !create_conflict(m, req)
    &&& create_fk_ok(m, req)
    &&& create_ids_ok(m, req)
}

/// The parent row a create inserts.
pub open spec fn instance_row_of(req: CreateRequestV) -> ServiceInstanceRowV {
    ServiceInstanceRowV {
        service_instance_id: req.service_instance_id,
        service_date: req.service_date,
        service_reason: req.service_reason,
        general_diagnosis: req.general_diagnosis,
        requires_followup: req.requires_followup,
        followup_date: req.followup_date,
        pet_id: req.pet_id,
    }
}

/// One tag row per label, in order, without deduplication, all bound to one
/// instance.
pub open spec fn tag_rows_named(names: Seq<Seq<char>>, id: Seq<char>) -> Seq<ServiceTypeRowV> {
    Seq::new(
        names.len(),
        |i: int| ServiceTypeRowV { service_type_name: names[i], service_instance_id: id },
    )
}

/// The tag rows a create inserts.
pub open spec fn tag_rows_of_req(req: CreateRequestV) -> Seq<ServiceTypeRowV> {
    tag_rows_named(req.service_type, req.service_instance_id)
}

/// One grooming row per supplied type, ids assigned sequentially from
/// `next`.
pub open spec fn grooming_rows_named(next: i32, types: Seq<Seq<char>>, id: Seq<char>) -> Seq<
    GroomingRowV,
> {
    Seq::new(
        types.len(),
        |i: int|
            GroomingRowV {
                grooming_id: (next as int + i) as i32,
                grooming_type: types[i],
                service_instance_id: id,
            },
    )
}

/// The grooming values a create echoes back, ids attached.
pub open spec fn grooming_echoes_named(next: i32, types: Seq<Seq<char>>, id: Seq<char>) -> Seq<
    GroomingV,
> {
    Seq::new(
        types.len(),
        |i: int|
            GroomingV {
                grooming_id: Some((next as int + i) as i32),
                grooming_type: types[i],
                service_instance_id: id,
            },
    )
}

/// The grooming rows a create inserts.
pub open spec fn grooming_rows_of_req(m: DbModel, req: CreateRequestV) -> Seq<GroomingRowV> {
    if req.grooming_type is Some {
        grooming_rows_named(m.next_grooming_id, req.grooming_type->0, req.service_instance_id)
    } else {
        Seq::<GroomingRowV>::empty()
    }
}

/// One preventive-care row per treatment, all sharing one veterinarian, ids
/// assigned sequentially from `next`.
pub open spec fn care_rows_named(
    next: i32,
    treatments: Seq<Seq<char>>,
    vet_id: Seq<char>,
    id: Seq<char>,
) -> Seq<PreventiveCareRowV> {
    Seq::new(
        treatments.len(),
        |i: int|
            PreventiveCareRowV {
                preventive_care_id: (next as int + i) as i32,
                treatment: treatments[i],
                vet_id: vet_id,
                service_instance_id: id,
            },
    )
}

/// The preventive-care values a create echoes back, ids attached.
pub open spec fn care_echoes_named(
    next: i32,
    treatments: Seq<Seq<char>>,
    vet_id: Seq<char>,
    id: Seq<char>,
) -> Seq<PreventiveCareV> {
    Seq::new(
        treatments.len(),
        |i: int|
            PreventiveCareV {
                preventive_care_id: Some((next as int + i) as i32),
                treatment: treatments[i],
                vet_id: vet_id,
                service_instance_id: id,
            },
    )
}

/// The preventive-care rows a create inserts.
pub open spec fn care_rows_of_req(m: DbModel, req: CreateRequestV) -> Seq<PreventiveCareRowV> {
    if req.preventive_care is Some {
        care_rows_named(
            m.next_preventive_care_id,
            req.preventive_care->0.treatment,
            req.preventive_care->0.vet_id,
            req.service_instance_id,
        )
    } else {
        Seq::<PreventiveCareRowV>::empty()
    }
}

/// The surgery row a create inserts, if a surgery was supplied. The
/// veterinarian's diagnosis is not one of the columns this insert writes.
pub open spec fn surgery_rows_of_req(m: DbModel, req: CreateRequestV) -> Seq<SurgeryRowV> {
    if req.surgery is Some {
        seq![
            SurgeryRowV {
                surgery_id: m.next_surgery_id,
                surgery_name: req.surgery->0.surgery_name,
                anesthesia_used: Some(req.surgery->0.anesthesia_used),
                veterinarian_diagnosis: None,
                complications: Some(req.surgery->0.complications),
                outcome: Some(req.surgery->0.outcome),
                service_instance_id: req.service_instance_id,
                vet_id: req.surgery->0.vet_id,
            },
        ]
    } else {
        Seq::<SurgeryRowV>::empty()
    }
}

/// The value a successful create returns: the request echoed back with the
/// store-assigned child ids attached, empty child collections collapsed to
/// absent, and at most one surgery.
pub open spec fn create_result(m: DbModel, req: CreateRequestV) -> ServiceInstanceV {
    ServiceInstanceV {
        service_instance_id: req.service_instance_id,
        service_date: req.service_date,
        service_type: req.service_type,
        service_reason: req.service_reason,
        general_diagnosis: req.general_diagnosis,
        requires_followup: req.requires_followup,
        followup_date: req.followup_date,
        pet_id: req.pet_id,
        grooming: if grooming_count(req) == 0 {
            None
        } else {
            Some(
                grooming_echoes_named(
                    m.next_grooming_id,
                    req.grooming_type->0,
                    req.service_instance_id,
                ),
            )
        },
        preventive_care: if care_count(req) == 0 {
            None
        } else {
            Some(
                care_echoes_named(
                    m.next_preventive_care_id,
                    req.preventive_care->0.treatment,
                    req.preventive_care->0.vet_id,
                    req.service_instance_id,
                ),
            )
        },
        surgery: if req.surgery is Some {
            Some(
                SurgeryV {
                    surgery_id: Some(m.next_surgery_id),
                    surgery_name: req.surgery->0.surgery_name,
                    anesthesia_used: req.surgery->0.anesthesia_used,
                    veterinarian_diagnosis: req.surgery->0.veterinarian_diagnosis,
                    complications: req.surgery->0.complications,
                    outcome: req.surgery->0.outcome,
                    service_instance_id: req.service_instance_id,
                    vet_id: req.surgery->0.vet_id,
                },
            )
        } else {
            None
        },
    }
}

/// How a successful create relates the state before, the state after, and
/// the returned value: the parent row inserted at its sorted position, every
/// child row appended to its table, the counters advanced by exactly the
/// rows consumed, everything else untouched, and the result assembled as
/// [`create_result`] says.
pub open spec fn create_post(
    m0: DbModel,
    req: CreateRequestV,
    res: ServiceInstanceV,
    m1: DbModel,
) -> bool {
    &&& exists|k: int|
        0 <= k <= m0.instances.len() && m1.instances == m0.instances.insert(
            k,
            instance_row_of(req),
        )
    &&& m1.service_types == m0.service_types + tag_rows_of_req(req)
    &&& m1.groomings == m0.groomings + grooming_rows_of_req(m0, req)
    &&& m1.preventive_cares == m0.preventive_cares + care_rows_of_req(m0, req)
    &&& m1.surgeries == m0.surgeries + surgery_rows_of_req(m0, req)
    &&& m1.veterinarians == m0.veterinarians
    &&& m1.pet_ids == m0.pet_ids
    &&& m1.next_grooming_id as int == m0.next_grooming_id as int + grooming_count(req)
    &&& m1.next_preventive_care_id as int == m0.next_preventive_care_id as int + care_count(req)
    &&& m1.next_surgery_id as int == m0.next_surgery_id as int + surgery_count(req)
    &&& res == create_result(m0, req)
}

/// A scalar partial update applied to an instance row: supplied fields
/// replaced, absent fields kept, the id and pet never touched.
pub open spec fn apply_instance_update(
    row: ServiceInstanceRowV,
    u: UpdateServiceInstanceV,
) -> ServiceInstanceRowV {
    ServiceInstanceRowV {
        service_instance_id: row.service_instance_id,
        service_date: if u.service_date is Some {
            u.service_date->0
        } else {
            row.service_date
        },
        service_reason: if u.service_reason is Some {
            u.service_reason->0
        } else {
            row.service_reason
        },
        general_diagnosis: if u.general_diagnosis is Some {
            u.general_diagnosis->0
        } else {
            row.general_diagnosis
        },
        requires_followup: if u.requires_followup is Some {
            u.requires_followup->0
        } else {
            row.requires_followup
        },
        followup_date: if u.followup_date is Some {
            Some(u.followup_date->0)
        } else {
            row.followup_date
        },
        pet_id: row.pet_id,
    }
}

/// A partial update applied to a surgery row: supplied fields replaced,
/// absent fields kept, the id and owning instance never touched.
pub open spec fn apply_surgery_update(row: SurgeryRowV, u: UpdateSurgeryV) -> SurgeryRowV {
    SurgeryRowV {
        surgery_id: row.surgery_id,
        surgery_name: if u.surgery_name is Some {
            u.surgery_name->0
        } else {
            row.surgery_name
        },
        anesthesia_used: if u.anesthesia_used is Some {
            Some(u.anesthesia_used->0)
        } else {
            row.anesthesia_used
        },
        veterinarian_diagnosis: if u.veterinarian_diagnosis is Some {
            Some(u.veterinarian_diagnosis->0)
        } else {
            row.veterinarian_diagnosis
        },
        complications: if u.complications is Some {
            Some(u.complications->0)
        } else {
            row.complications
        },
        outcome: if u.outcome is Some {
            Some(u.outcome->0)
        } else {
            row.outcome
        },
        service_instance_id: row.service_instance_id,
        vet_id: if u.vet_id is Some {
            u.vet_id->0
        } else {
            row.vet_id
        },
    }
}

/// The tag table after a full tag-set replacement for one instance: every
/// row of other instances kept in order, the new labels appended, one row
/// each, without deduplication.
pub open spec fn replace_tags(
    tags: Seq<ServiceTypeRowV>,
    id: Seq<char>,
    new_names: Seq<Seq<char>>,
) -> Seq<ServiceTypeRowV> {
    tag_rows_except(tags, id) + Seq::new(
        new_names.len(),
        |i: int| ServiceTypeRowV { service_type_name: new_names[i], service_instance_id: id },
    )
}

} // verus!

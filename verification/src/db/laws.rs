//! The aggregate store's guarantees, stated and proved over the abstract
//! model: creating an aggregate and reading it straight back returns what was
//! supplied; replacing a tag set leaves exactly the new tags and touches no
//! other instance; a partial update keeps every unsupplied field; and a pet's
//! history carries one entry per instance, ascending by instance id, each
//! with that instance's own tags.

use vstd::prelude::*;

use crate::db::model::{
    apply_instance_update, care_rows_named, care_rows_of, create_ok, create_post, detail_ok,
    find_vet, grooming_models_of, grooming_rows_named, has_vet, history_of, instance_detail,
    instance_row_of, lemma_sorted_find_instance, pet_instances_of, replace_tags, surgery_rows_of,
    tag_names_of, tag_rows_except, tag_rows_named, vet_service_view, wf_db, CreateRequestV,
    DbModel,
};
use crate::db::rows::{
    GroomingRowV, PreventiveCareRowV, ServiceInstanceRowV, ServiceTypeRowV, SurgeryRowV,
};
use crate::models::service_instance_model::GroomingModelV;
use crate::schemas::service_instance_schema::UpdateServiceInstanceV;
use crate::utils::text::{lemma_str_lt_irreflexive, str_lt};

verus! {

proof fn lemma_tag_names_append(a: Seq<ServiceTypeRowV>, b: Seq<ServiceTypeRowV>, id: Seq<char>)
    ensures
        tag_names_of(a + b, id) == tag_names_of(a, id) + tag_names_of(b, id),
    decreases b.len(),
{
    if b.len() == 0 {
        assert(a + b =~= a);
        assert(tag_names_of(a, id) + tag_names_of(b, id) =~= tag_names_of(a, id));
    } else {
        lemma_tag_names_append(a, b.drop_last(), id);
        assert((a + b).drop_last() =~= a + b.drop_last());
        assert((a + b).last() == b.last());
        if b.last().service_instance_id == id {
            assert(tag_names_of(a, id) + tag_names_of(b, id) =~= (tag_names_of(a, id)
                + tag_names_of(b.drop_last(), id)).push(b.last().service_type_name));
        }
    }
}

proof fn lemma_tag_names_none(tags: Seq<ServiceTypeRowV>, id: Seq<char>)
    requires
        forall|i: int| 0 <= i < tags.len() ==> (#[trigger] tags[i].service_instance_id) != id,
    ensures
        tag_names_of(tags, id) == Seq::<Seq<char>>::empty(),
    decreases tags.len(),
{
    if tags.len() > 0 {
        lemma_tag_names_none(tags.drop_last(), id);
    }
}

proof fn lemma_tag_names_block(names: Seq<Seq<char>>, id: Seq<char>)
    ensures
        tag_names_of(tag_rows_named(names, id), id) == names,
    decreases names.len(),
{
    let block = tag_rows_named(names, id);
    if names.len() == 0 {
        assert(tag_names_of(block, id) =~= names);
    } else {
        lemma_tag_names_block(names.drop_last(), id);
        assert(block.drop_last() =~= tag_rows_named(names.drop_last(), id));
        assert(tag_names_of(block, id) =~= names);
    }
}

proof fn lemma_tag_names_block_other(names: Seq<Seq<char>>, id: Seq<char>, other: Seq<char>)
    requires
        other != id,
    ensures
        tag_names_of(tag_rows_named(names, id), other) == Seq::<Seq<char>>::empty(),
{
    lemma_tag_names_none(tag_rows_named(names, id), other);
}

proof fn lemma_tag_rows_except_drops(tags: Seq<ServiceTypeRowV>, id: Seq<char>)
    ensures
        forall|i: int|
            0 <= i < tag_rows_except(tags, id).len() ==> (#[trigger] tag_rows_except(
                tags,
                id,
            )[i].service_instance_id) != id,
    decreases tags.len(),
{
    if tags.len() > 0 {
        lemma_tag_rows_except_drops(tags.drop_last(), id);
        let rest = tag_rows_except(tags.drop_last(), id);
        assert forall|i: int| 0 <= i < tag_rows_except(tags, id).len() implies (
        #[trigger] tag_rows_except(tags, id)[i].service_instance_id) != id by {
            if tags.last().service_instance_id == id {
                assert(tag_rows_except(tags, id) == rest);
            } else {
                assert(tag_rows_except(tags, id) == rest.push(tags.last()));
                if i < rest.len() {
                    assert(tag_rows_except(tags, id)[i] == rest[i]);
                }
            }
        }
    }
}

proof fn lemma_tag_names_except_other(tags: Seq<ServiceTypeRowV>, id: Seq<char>, other: Seq<char>)
    requires
        other != id,
    ensures
        tag_names_of(tag_rows_except(tags, id), other) == tag_names_of(tags, other),
    decreases tags.len(),
{
    if tags.len() > 0 {
        lemma_tag_names_except_other(tags.drop_last(), id, other);
        if tags.last().service_instance_id == id {
        } else {
            assert(tag_rows_except(tags, id).drop_last() =~= tag_rows_except(
                tags.drop_last(),
                id,
            ));
        }
    }
}

/// Replacing the tag set of one instance leaves that instance with exactly
/// the new labels, in order, and every other instance's tag list untouched.
pub proof fn lemma_tag_replacement(
    m0: DbModel,
    id: Seq<char>,
    new_names: Seq<Seq<char>>,
    m1: DbModel,
)
    requires
        m1.service_types == replace_tags(m0.service_types, id, new_names),
    ensures
        tag_names_of(m1.service_types, id) == new_names,
        forall|other: Seq<char>|
            other != id ==> #[trigger] tag_names_of(m1.service_types, other) == tag_names_of(
                m0.service_types,
                other,
            ),
{
    let kept = tag_rows_except(m0.service_types, id);
    let block = tag_rows_named(new_names, id);
    lemma_tag_names_append(kept, block, id);
    lemma_tag_rows_except_drops(m0.service_types, id);
    lemma_tag_names_none(kept, id);
    lemma_tag_names_block(new_names, id);
    assert(tag_names_of(m1.service_types, id) =~= new_names);
    assert forall|other: Seq<char>| other != id implies #[trigger] tag_names_of(
        m1.service_types,
        other,
    ) == tag_names_of(m0.service_types, other) by {
        lemma_tag_names_append(kept, block, other);
        lemma_tag_names_except_other(m0.service_types, id, other);
        lemma_tag_names_block_other(new_names, id, other);
        assert(tag_names_of(m1.service_types, other) =~= tag_names_of(m0.service_types, other));
    }
}

proof fn lemma_grooming_models_append(a: Seq<GroomingRowV>, b: Seq<GroomingRowV>, id: Seq<char>)
    ensures
        grooming_models_of(a + b, id) == grooming_models_of(a, id) + grooming_models_of(b, id),
    decreases b.len(),
{
    if b.len() == 0 {
        assert(a + b =~= a);
        assert(grooming_models_of(a, id) + grooming_models_of(b, id) =~= grooming_models_of(
            a,
            id,
        ));
    } else {
        lemma_grooming_models_append(a, b.drop_last(), id);
        assert((a + b).drop_last() =~= a + b.drop_last());
        assert((a + b).last() == b.last());
        if b.last().service_instance_id == id {
            assert(grooming_models_of(a, id) + grooming_models_of(b, id) =~= (grooming_models_of(
                a,
                id,
            ) + grooming_models_of(b.drop_last(), id)).push(
                GroomingModelV {
                    grooming_id: b.last().grooming_id,
                    grooming_type: b.last().grooming_type,
                },
            ));
        }
    }
}

proof fn lemma_grooming_models_none(gs: Seq<GroomingRowV>, id: Seq<char>)
    requires
        forall|i: int| 0 <= i < gs.len() ==> (#[trigger] gs[i].service_instance_id) != id,
    ensures
        grooming_models_of(gs, id) == Seq::<GroomingModelV>::empty(),
    decreases gs.len(),
{
    if gs.len() > 0 {
        lemma_grooming_models_none(gs.drop_last(), id);
    }
}

proof fn lemma_grooming_models_block(next: i32, types: Seq<Seq<char>>, id: Seq<char>)
    requires
        next >= 1,
        next as int + types.len() <= i32::MAX as int,
    ensures
        grooming_models_of(grooming_rows_named(next, types, id), id) == Seq::new(
            types.len(),
            |i: int|
                GroomingModelV { grooming_id: (next as int + i) as i32, grooming_type: types[i] },
        ),
    decreases types.len(),
{
    let block = grooming_rows_named(next, types, id);
    let want = Seq::new(
        types.len(),
        |i: int| GroomingModelV { grooming_id: (next as int + i) as i32, grooming_type: types[i] },
    );
    if types.len() == 0 {
        assert(grooming_models_of(block, id) =~= want);
    } else {
        lemma_grooming_models_block(next, types.drop_last(), id);
        assert(block.drop_last() =~= grooming_rows_named(next, types.drop_last(), id));
        assert(grooming_models_of(block, id) =~= want);
    }
}

proof fn lemma_care_rows_append(a: Seq<PreventiveCareRowV>, b: Seq<PreventiveCareRowV>, id: Seq<
    char,
>)
    ensures
        care_rows_of(a + b, id) == care_rows_of(a, id) + care_rows_of(b, id),
    decreases b.len(),
{
    if b.len() == 0 {
        assert(a + b =~= a);
        assert(care_rows_of(a, id) + care_rows_of(b, id) =~= care_rows_of(a, id));
    } else {
        lemma_care_rows_append(a, b.drop_last(), id);
        assert((a + b).drop_last() =~= a + b.drop_last());
        assert((a + b).last() == b.last());
        if b.last().service_instance_id == id {
            assert(care_rows_of(a, id) + care_rows_of(b, id) =~= (care_rows_of(a, id)
                + care_rows_of(b.drop_last(), id)).push(b.last()));
        }
    }
}

proof fn lemma_care_rows_none(cs: Seq<PreventiveCareRowV>, id: Seq<char>)
    requires
        forall|i: int| 0 <= i < cs.len() ==> (#[trigger] cs[i].service_instance_id) != id,
    ensures
        care_rows_of(cs, id) == Seq::<PreventiveCareRowV>::empty(),
    decreases cs.len(),
{
    if cs.len() > 0 {
        lemma_care_rows_none(cs.drop_last(), id);
    }
}

proof fn lemma_care_rows_block(next: i32, treatments: Seq<Seq<char>>, vet_id: Seq<char>, id: Seq<
    char,
>)
    ensures
        care_rows_of(care_rows_named(next, treatments, vet_id, id), id) == care_rows_named(
            next,
            treatments,
            vet_id,
            id,
        ),
    decreases treatments.len(),
{
    let block = care_rows_named(next, treatments, vet_id, id);
    if treatments.len() == 0 {
        assert(care_rows_of(block, id) =~= block);
    } else {
        lemma_care_rows_block(next, treatments.drop_last(), vet_id, id);
        assert(block.drop_last() =~= care_rows_named(next, treatments.drop_last(), vet_id, id));
        assert(care_rows_of(block, id) =~= block);
    }
}

proof fn lemma_surgery_rows_append(a: Seq<SurgeryRowV>, b: Seq<SurgeryRowV>, id: Seq<char>)
    ensures
        surgery_rows_of(a + b, id) == surgery_rows_of(a, id) + surgery_rows_of(b, id),
    decreases b.len(),
{
    if b.len() == 0 {
        assert(a + b =~= a);
        assert(surgery_rows_of(a, id) + surgery_rows_of(b, id) =~= surgery_rows_of(a, id));
    } else {
        lemma_surgery_rows_append(a, b.drop_last(), id);
        assert((a + b).drop_last() =~= a + b.drop_last());
        assert((a + b).last() == b.last());
        if b.last().service_instance_id == id {
            assert(surgery_rows_of(a, id) + surgery_rows_of(b, id) =~= (surgery_rows_of(a, id)
                + surgery_rows_of(b.drop_last(), id)).push(b.last()));
        }
    }
}

proof fn lemma_surgery_rows_none(ss: Seq<SurgeryRowV>, id: Seq<char>)
    requires
        forall|i: int| 0 <= i < ss.len() ==> (#[trigger] ss[i].service_instance_id) != id,
    ensures
        surgery_rows_of(ss, id) == Seq::<SurgeryRowV>::empty(),
    decreases ss.len(),
{
    if ss.len() > 0 {
        lemma_surgery_rows_none(ss.drop_last(), id);
    }
}

/// Creating an aggregate and reading it straight back returns exactly what
/// was supplied: the scalar fields, the tag list in order, one grooming per
/// supplied type and one treatment row per supplied treatment with fresh
/// sequential ids, and the supplied surgery, its veterinarian embedded. The
/// instance id must be fresh across all five tables, as ids are never reused.
pub proof fn lemma_create_round_trip(
    m0: DbModel,
    req: CreateRequestV,
    res: crate::schemas::service_instance_schema::ServiceInstanceV,
    m1: DbModel,
)
    requires
        wf_db(m0),
        wf_db(m1),
        create_ok(m0, req),
        create_post(m0, req, res, m1),
        forall|i: int|
            0 <= i < m0.service_types.len() ==> (#[trigger] m0.service_types[i].service_instance_id)
                != req.service_instance_id,
        forall|i: int|
            0 <= i < m0.groomings.len() ==> (#[trigger] m0.groomings[i].service_instance_id)
                != req.service_instance_id,
        forall|i: int|
            0 <= i < m0.preventive_cares.len() ==> (
            #[trigger] m0.preventive_cares[i].service_instance_id) != req.service_instance_id,
        forall|i: int|
            0 <= i < m0.surgeries.len() ==> (#[trigger] m0.surgeries[i].service_instance_id)
                != req.service_instance_id,
    ensures
        detail_ok(m1, req.service_instance_id),
        ({
            let d = instance_detail(m1, req.service_instance_id);
            &&& d.service_instance_id == req.service_instance_id
            &&& d.service_date == req.service_date
            &&& d.service_type == req.service_type
            &&& d.service_reason == req.service_reason
            &&& d.general_diagnosis == req.general_diagnosis
            &&& d.requires_followup == req.requires_followup
            &&& d.followup_date == req.followup_date
            &&& d.pet_id == req.pet_id
            &&& (req.grooming_type is None || req.grooming_type->0.len() == 0 ==> d.grooming
                is None)
            &&& (req.grooming_type is Some && req.grooming_type->0.len() > 0 ==> d.grooming
                is Some && d.grooming->0.len() == req.grooming_type->0.len() && (forall|i: int|
                0 <= i < req.grooming_type->0.len() ==> (#[trigger] d.grooming->0[i]).grooming_type
                    == req.grooming_type->0[i] && d.grooming->0[i].grooming_id as int
                    == m0.next_grooming_id as int + i))
            &&& (req.preventive_care is None || req.preventive_care->0.treatment.len() == 0
                ==> d.preventive_care is None)
            &&& (req.preventive_care is Some && req.preventive_care->0.treatment.len() > 0
                ==> d.preventive_care is Some && d.preventive_care->0.len()
                    == req.preventive_care->0.treatment.len() && (forall|i: int|
                    0 <= i < req.preventive_care->0.treatment.len() ==> (
                    #[trigger] d.preventive_care->0[i]).treatment
                        == req.preventive_care->0.treatment[i] && d.preventive_care->0[i].vet
                        == vet_service_view(
                        find_vet(m0.veterinarians, req.preventive_care->0.vet_id)->0,
                    ) && d.preventive_care->0[i].preventive_care_id as int
                        == m0.next_preventive_care_id as int + i))
            &&& (req.surgery is None ==> d.surgery is None)
            &&& (req.surgery is Some ==> d.surgery is Some && d.surgery->0.surgery_id
                == m0.next_surgery_id && d.surgery->0.surgery_name == req.surgery->0.surgery_name
                && d.surgery->0.anesthesia_used == Some(req.surgery->0.anesthesia_used)
                && d.surgery->0.complications == Some(req.surgery->0.complications)
                && d.surgery->0.outcome == Some(req.surgery->0.outcome)
                && d.surgery->0.veterinarian_diagnosis is None && d.surgery->0.vet
                == vet_service_view(find_vet(m0.veterinarians, req.surgery->0.vet_id)->0))
        }),
{
    let id = req.service_instance_id;
    let k = choose|k: int|
        0 <= k <= m0.instances.len() && m1.instances == m0.instances.insert(
            k,
            instance_row_of(req),
        );
    m0.instances.insert_ensures(k, instance_row_of(req));
    lemma_sorted_find_instance(m1.instances, k, id);
    // Tags: the old table holds none for this id, the new block holds them
    // all, in order.
    lemma_tag_names_append(m0.service_types, tag_rows_named(req.service_type, id), id);
    lemma_tag_names_none(m0.service_types, id);
    lemma_tag_names_block(req.service_type, id);
    assert(tag_names_of(m1.service_types, id) =~= req.service_type);
    // Groomings.
    let gtypes = if req.grooming_type is Some {
        req.grooming_type->0
    } else {
        Seq::<Seq<char>>::empty()
    };
    let gblock = m1.groomings.skip(m0.groomings.len() as int);
    assert(m1.groomings =~= m0.groomings + crate::db::model::grooming_rows_of_req(m0, req));
    lemma_grooming_models_append(
        m0.groomings,
        crate::db::model::grooming_rows_of_req(m0, req),
        id,
    );
    lemma_grooming_models_none(m0.groomings, id);
    if req.grooming_type is Some {
        lemma_grooming_models_block(m0.next_grooming_id, req.grooming_type->0, id);
    }
    assert(grooming_models_of(m1.groomings, id) =~= grooming_models_of(
        crate::db::model::grooming_rows_of_req(m0, req),
        id,
    ));
    // Preventive care.
    lemma_care_rows_append(m0.preventive_cares, crate::db::model::care_rows_of_req(m0, req), id);
    lemma_care_rows_none(m0.preventive_cares, id);
    if req.preventive_care is Some {
        lemma_care_rows_block(
            m0.next_preventive_care_id,
            req.preventive_care->0.treatment,
            req.preventive_care->0.vet_id,
            id,
        );
    }
    assert(care_rows_of(m1.preventive_cares, id) =~= crate::db::model::care_rows_of_req(m0, req));
    // Surgery.
    lemma_surgery_rows_append(m0.surgeries, crate::db::model::surgery_rows_of_req(m0, req), id);
    lemma_surgery_rows_none(m0.surgeries, id);
    if req.surgery is Some {
        let block = crate::db::model::surgery_rows_of_req(m0, req);
        assert(block.len() == 1);
        assert(block.last().service_instance_id == id);
        assert(block.drop_last() =~= Seq::<SurgeryRowV>::empty());
        assert(surgery_rows_of(Seq::<SurgeryRowV>::empty(), id) =~= Seq::<SurgeryRowV>::empty());
        assert(surgery_rows_of(block, id) =~= block);
    }
    assert(surgery_rows_of(m1.surgeries, id) =~= crate::db::model::surgery_rows_of_req(m0, req));
    assert(m1.veterinarians == m0.veterinarians);
    assert(detail_ok(m1, id));
}

/// A partial update with only the reason supplied leaves the date, the
/// diagnosis, the follow-up flag and date, the instance id and the pet
/// untouched, and writes exactly the supplied reason.
pub proof fn lemma_partial_update_keeps_unsupplied(
    row: ServiceInstanceRowV,
    u: UpdateServiceInstanceV,
)
    requires
        u.service_date is None,
        u.general_diagnosis is None,
        u.requires_followup is None,
        u.followup_date is None,
    ensures
        apply_instance_update(row, u).service_date == row.service_date,
        apply_instance_update(row, u).general_diagnosis == row.general_diagnosis,
        apply_instance_update(row, u).requires_followup == row.requires_followup,
        apply_instance_update(row, u).followup_date == row.followup_date,
        apply_instance_update(row, u).service_instance_id == row.service_instance_id,
        apply_instance_update(row, u).pet_id == row.pet_id,
        u.service_reason is Some ==> apply_instance_update(row, u).service_reason
            == u.service_reason->0,
        u.service_reason is None ==> apply_instance_update(row, u).service_reason
            == row.service_reason,
{
}

/// An empty child collection is reported as absent, never as an empty list:
/// in the value a create returns and in the detail view alike, and a
/// non-empty one is present.
pub proof fn lemma_collapsing(m: DbModel, req: CreateRequestV, id: Seq<char>)
    ensures
        crate::db::model::grooming_count(req) == 0 <==> crate::db::model::create_result(
            m,
            req,
        ).grooming is None,
        crate::db::model::care_count(req) == 0 <==> crate::db::model::create_result(
            m,
            req,
        ).preventive_care is None,
        req.surgery is None <==> crate::db::model::create_result(m, req).surgery is None,
        grooming_models_of(m.groomings, id).len() == 0 <==> instance_detail(m, id).grooming
            is None,
        crate::db::model::care_models_of(m, id).len() == 0 <==> instance_detail(
            m,
            id,
        ).preventive_care is None,
        crate::db::model::surgery_models_of(m, id).len() == 0 <==> instance_detail(m, id).surgery
            is None,
{
}

proof fn lemma_pet_instances_membership(s: Seq<ServiceInstanceRowV>, pet_id: Seq<char>)
    ensures
        forall|i: int|
            0 <= i < pet_instances_of(s, pet_id).len() ==> exists|k: int|
                0 <= k < s.len() && s[k] == (#[trigger] pet_instances_of(s, pet_id)[i])
                    && pet_instances_of(s, pet_id).subrange(0, i) == pet_instances_of(
                    s.take(k),
                    pet_id,
                ),
    decreases s.len(),
{
    if s.len() > 0 {
        lemma_pet_instances_membership(s.drop_last(), pet_id);
        let rows0 = pet_instances_of(s.drop_last(), pet_id);
        let rows1 = pet_instances_of(s, pet_id);
        assert(s.drop_last() =~= s.take(s.len() - 1));
        assert forall|i: int| 0 <= i < rows1.len() implies exists|k: int|
            0 <= k < s.len() && s[k] == (#[trigger] rows1[i]) && rows1.subrange(0, i)
                == pet_instances_of(s.take(k), pet_id) by {
            if i < rows0.len() {
                let k = choose|k: int|
                    0 <= k < s.drop_last().len() && s.drop_last()[k] == rows0[i] && rows0.subrange(
                        0,
                        i,
                    ) == pet_instances_of(s.drop_last().take(k), pet_id);
                assert(s[k] == rows0[i]);
                assert(rows1[i] == rows0[i]);
                assert(s.drop_last().take(k) =~= s.take(k));
                assert(rows1.subrange(0, i) =~= rows0.subrange(0, i));
            } else {
                assert(s.last().pet_id == pet_id);
                assert(rows1[i] == s.last());
                assert(rows1.subrange(0, i) =~= rows0);
            }
        }
    }
}

proof fn lemma_pet_instances_take_mono(s: Seq<ServiceInstanceRowV>, pet_id: Seq<char>, a: int, b: int)
    requires
        0 <= a <= b <= s.len(),
    ensures
        pet_instances_of(s.take(a), pet_id).len() <= pet_instances_of(s.take(b), pet_id).len(),
    decreases b - a,
{
    if a < b {
        lemma_pet_instances_take_mono(s, pet_id, a, b - 1);
        assert(s.take(b).drop_last() =~= s.take(b - 1));
    }
}

/// A pet's history is ascending by instance id: the entries inherit the
/// instance table's sort order, and each entry carries its own instance's tag
/// list.
pub proof fn lemma_history_sorted(m: DbModel, pet_id: Seq<char>)
    requires
        wf_db(m),
    ensures
        forall|i: int, j: int|
            0 <= i < j < history_of(m, pet_id).len() ==> str_lt(
                (#[trigger] history_of(m, pet_id)[i]).service_instance_id,
                (#[trigger] history_of(m, pet_id)[j]).service_instance_id,
            ),
        history_of(m, pet_id).len() == pet_instances_of(m.instances, pet_id).len(),
        forall|i: int|
            0 <= i < history_of(m, pet_id).len() ==> (#[trigger] history_of(
                m,
                pet_id,
            )[i]).service_instance_id == pet_instances_of(
                m.instances,
                pet_id,
            )[i].service_instance_id && history_of(m, pet_id)[i].service_type == tag_names_of(
                m.service_types,
                pet_instances_of(m.instances, pet_id)[i].service_instance_id,
            ),
{
    let s = m.instances;
    let rows = pet_instances_of(s, pet_id);
    lemma_pet_instances_membership(s, pet_id);
    assert forall|i: int, j: int| 0 <= i < j < rows.len() implies str_lt(
        (#[trigger] rows[i]).service_instance_id,
        (#[trigger] rows[j]).service_instance_id,
    ) by {
        let ki = choose|k: int|
            0 <= k < s.len() && s[k] == rows[i] && rows.subrange(0, i) == pet_instances_of(
                s.take(k),
                pet_id,
            );
        let kj = choose|k: int|
            0 <= k < s.len() && s[k] == rows[j] && rows.subrange(0, j) == pet_instances_of(
                s.take(k),
                pet_id,
            );
        assert(pet_instances_of(s.take(ki), pet_id).len() == i);
        assert(pet_instances_of(s.take(kj), pet_id).len() == j);
        if ki >= kj {
            lemma_pet_instances_take_mono(s, pet_id, kj, ki);
        }
        assert(ki < kj);
        assert(str_lt(s[ki].service_instance_id, s[kj].service_instance_id));
    }
}

} // verus!

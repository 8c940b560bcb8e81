use pet_api::db::error::StoreError;
use pet_api::db::service_instance_queries::ServiceInstanceQueries;
use pet_api::schemas::service_instance_schema::{AddPreventiveCare, AddSurgery};

fn seeded_store() -> ServiceInstanceQueries {
    let mut store = ServiceInstanceQueries::new();
    store
        .insert_vet(
            "vet-1".to_string(),
            "Dr. Ada".to_string(),
            "ada@clinic.test".to_string(),
            "555-0100".to_string(),
            "LIC-1".to_string(),
        )
        .unwrap();
    store.register_pet("pet-1".to_string()).unwrap();
    store
}

fn full_create(
    store: &mut ServiceInstanceQueries,
    id: &str,
    vet_id: &str,
) -> Result<pet_api::schemas::service_instance_schema::ServiceInstance, StoreError> {
    store.insert_service_instance(
        id.to_string(),
        "2024-03-01".to_string(),
        vec!["grooming".to_string(), "surgery".to_string()],
        "annual visit".to_string(),
        "healthy".to_string(),
        true,
        Some("2024-04-01".to_string()),
        "pet-1".to_string(),
        Some(vec!["bath".to_string(), "nail trim".to_string()]),
        Some(AddPreventiveCare {
            treatment: vec!["rabies vaccine".to_string(), "deworming".to_string()],
            vet_id: vet_id.to_string(),
        }),
        Some(AddSurgery {
            surgery_name: "dental cleaning".to_string(),
            anesthesia_used: "isoflurane".to_string(),
            veterinarian_diagnosis: "tartar".to_string(),
            complications: "none".to_string(),
            outcome: "good".to_string(),
            vet_id: vet_id.to_string(),
        }),
    )
}

#[test]
fn create_fails_atomically_on_unknown_vet() {
    let mut store = seeded_store();
    // The surgery references a veterinarian that does not exist, so not one
    // row of the aggregate may survive.
    let result = full_create(&mut store, "svc-1", "vet-missing");
    assert!(matches!(result, Err(StoreError::Storage)));
    assert!(matches!(
        store.get_specific_instance("svc-1".to_string()),
        Err(StoreError::NotFound)
    ));
    let history = store
        .get_services_history_of_pet(10, 0, "pet-1".to_string())
        .unwrap();
    assert_eq!(history.len(), 0);
    // Sibling children are absent too: nothing to delete anywhere.
    assert_eq!(store.delete_grooming(1).unwrap(), 0);
    assert_eq!(store.delete_preventive_care(1).unwrap(), 0);
    assert_eq!(store.delete_surgery(1).unwrap(), 0);
}

#[test]
fn create_fails_atomically_on_unknown_pet() {
    let mut store = seeded_store();
    let result = store.insert_service_instance(
        "svc-1".to_string(),
        "2024-03-01".to_string(),
        vec!["checkup".to_string()],
        "visit".to_string(),
        "fine".to_string(),
        false,
        None,
        "pet-unknown".to_string(),
        None,
        None,
        None,
    );
    assert!(matches!(result, Err(StoreError::Storage)));
    assert!(matches!(
        store.get_specific_instance("svc-1".to_string()),
        Err(StoreError::NotFound)
    ));
}

#[test]
fn duplicate_instance_id_is_a_conflict() {
    let mut store = seeded_store();
    full_create(&mut store, "svc-1", "vet-1").unwrap();
    let again = full_create(&mut store, "svc-1", "vet-1");
    assert!(matches!(again, Err(StoreError::Conflict)));
}

#[test]
fn create_then_get_round_trips() {
    let mut store = seeded_store();
    let created = full_create(&mut store, "svc-1", "vet-1").unwrap();
    assert_eq!(created.service_instance_id, "svc-1");
    let groomings = created.grooming.as_ref().unwrap();
    assert_eq!(groomings.len(), 2);
    // Store-assigned ids are present and unique.
    let g0 = groomings[0].grooming_id.unwrap();
    let g1 = groomings[1].grooming_id.unwrap();
    assert_ne!(g0, g1);

    let fetched = store.get_specific_instance("svc-1".to_string()).unwrap();
    assert_eq!(fetched.service_instance_id, "svc-1");
    assert_eq!(fetched.service_date, "2024-03-01");
    assert_eq!(fetched.service_reason, "annual visit");
    assert_eq!(fetched.general_diagnosis, "healthy");
    assert!(fetched.requires_followup);
    assert_eq!(fetched.followup_date.as_deref(), Some("2024-04-01"));
    assert_eq!(fetched.pet_id, "pet-1");
    // Tags match as a set.
    let mut tags = fetched.service_type.clone();
    tags.sort();
    assert_eq!(tags, vec!["grooming".to_string(), "surgery".to_string()]);
    // Groomings match what was supplied, ids carried over.
    let fetched_groomings = fetched.grooming.as_ref().unwrap();
    assert_eq!(fetched_groomings.len(), 2);
    assert_eq!(fetched_groomings[0].grooming_type, "bath");
    assert_eq!(fetched_groomings[0].grooming_id, g0);
    assert_eq!(fetched_groomings[1].grooming_type, "nail trim");
    assert_eq!(fetched_groomings[1].grooming_id, g1);
    // Preventive care fans out one row per treatment, sharing the vet, and
    // embeds the veterinarian sub-view without its id.
    let cares = fetched.preventive_care.as_ref().unwrap();
    assert_eq!(cares.len(), 2);
    assert_eq!(cares[0].treatment, "rabies vaccine");
    assert_eq!(cares[1].treatment, "deworming");
    assert_ne!(cares[0].preventive_care_id, cares[1].preventive_care_id);
    assert_eq!(cares[0].vet.vet_name, "Dr. Ada");
    assert_eq!(cares[0].vet.vet_email, "ada@clinic.test");
    assert_eq!(cares[0].vet.vet_phone_number, "555-0100");
    assert_eq!(cares[0].vet.vet_license_number, "LIC-1");
    // The surgery is a single optional value.
    let surgery = fetched.surgery.as_ref().unwrap();
    assert_eq!(surgery.surgery_name, "dental cleaning");
    assert_eq!(surgery.anesthesia_used.as_deref(), Some("isoflurane"));
    assert_eq!(surgery.complications.as_deref(), Some("none"));
    assert_eq!(surgery.outcome.as_deref(), Some("good"));
    // The aggregate create does not write the veterinarian's diagnosis.
    assert_eq!(surgery.veterinarian_diagnosis, None);
    assert_eq!(surgery.vet.vet_name, "Dr. Ada");
}

#[test]
fn absent_children_collapse_to_none() {
    let mut store = seeded_store();
    store
        .insert_service_instance(
            "svc-1".to_string(),
            "2024-03-01".to_string(),
            vec!["checkup".to_string()],
            "visit".to_string(),
            "fine".to_string(),
            false,
            None,
            "pet-1".to_string(),
            Some(Vec::new()),
            None,
            None,
        )
        .map(|created| {
            // An empty grooming list collapses to absent, not an empty list.
            assert!(created.grooming.is_none());
            assert!(created.preventive_care.is_none());
            assert!(created.surgery.is_none());
        })
        .unwrap();
    let fetched = store.get_specific_instance("svc-1".to_string()).unwrap();
    assert!(fetched.grooming.is_none());
    assert!(fetched.preventive_care.is_none());
    assert!(fetched.surgery.is_none());
    assert_eq!(fetched.service_type, vec!["checkup".to_string()]);
}

#[test]
fn duplicate_tag_labels_are_not_deduplicated() {
    let mut store = seeded_store();
    store
        .insert_service_instance(
            "svc-1".to_string(),
            "2024-03-01".to_string(),
            vec!["grooming".to_string(), "grooming".to_string()],
            "visit".to_string(),
            "fine".to_string(),
            false,
            None,
            "pet-1".to_string(),
            None,
            None,
            None,
        )
        .unwrap();
    let fetched = store.get_specific_instance("svc-1".to_string()).unwrap();
    assert_eq!(
        fetched.service_type,
        vec!["grooming".to_string(), "grooming".to_string()]
    );
}

#[test]
fn get_of_unknown_instance_is_not_found() {
    let store = ServiceInstanceQueries::new();
    assert!(matches!(
        store.get_specific_instance("nope".to_string()),
        Err(StoreError::NotFound)
    ));
}

#[test]
fn empty_treatment_list_needs_no_vet() {
    let mut store = seeded_store();
    // Zero preventive-care rows means the veterinarian foreign key is never
    // touched, mirroring a loop over zero inserts.
    let created = store
        .insert_service_instance(
            "svc-1".to_string(),
            "2024-03-01".to_string(),
            vec![],
            "visit".to_string(),
            "fine".to_string(),
            false,
            None,
            "pet-1".to_string(),
            None,
            Some(AddPreventiveCare {
                treatment: vec![],
                vet_id: "vet-missing".to_string(),
            }),
            None,
        )
        .unwrap();
    assert!(created.preventive_care.is_none());
}

use pet_api::db::error::StoreError;
use pet_api::db::service_instance_queries::ServiceInstanceQueries;
use pet_api::schemas::service_instance_schema::{
    AddSurgery, UpdateServiceInstance, UpdateSurgery,
};

fn seeded_store_with_instance() -> ServiceInstanceQueries {
    let mut store = ServiceInstanceQueries::new();
    store
        .insert_vet(
            "vet-1".to_string(),
            "Dr. Ada".to_string(),
            "ada@clinic.test".to_string(),
            "555-0100".to_string(),
            "LIC-1".to_string(),
        )
        .unwrap();
    store.register_pet("pet-1".to_string()).unwrap();
    store
        .insert_service_instance(
            "svc-1".to_string(),
            "2024-03-01".to_string(),
            vec!["grooming".to_string(), "checkup".to_string()],
            "annual visit".to_string(),
            "healthy".to_string(),
            false,
            None,
            "pet-1".to_string(),
            None,
            None,
            Some(AddSurgery {
                surgery_name: "dental cleaning".to_string(),
                anesthesia_used: "isoflurane".to_string(),
                veterinarian_diagnosis: "tartar".to_string(),
                complications: "none".to_string(),
                outcome: "good".to_string(),
                vet_id: "vet-1".to_string(),
            }),
        )
        .unwrap();
    store
}

fn no_update() -> UpdateServiceInstance {
    UpdateServiceInstance {
        service_date: None,
        service_type: None,
        service_reason: None,
        general_diagnosis: None,
        requires_followup: None,
        followup_date: None,
    }
}

#[test]
fn tag_replacement_is_destructive_even_with_overlap() {
    let mut store = seeded_store_with_instance();
    let mut update = no_update();
    // "checkup" overlaps with the old set; "surgery" is new; "grooming" must
    // not survive.
    update.service_type = Some(vec!["checkup".to_string(), "surgery".to_string()]);
    let affected = store
        .update_service_instance(update, "svc-1".to_string())
        .unwrap();
    assert_eq!(affected, 1);
    let fetched = store.get_specific_instance("svc-1".to_string()).unwrap();
    assert_eq!(
        fetched.service_type,
        vec!["checkup".to_string(), "surgery".to_string()]
    );
}

#[test]
fn tag_replacement_of_missing_instance_fails_and_changes_nothing() {
    let mut store = seeded_store_with_instance();
    let mut update = no_update();
    update.service_type = Some(vec!["surgery".to_string()]);
    let result = store.update_service_instance(update, "svc-ghost".to_string());
    assert!(matches!(result, Err(StoreError::Storage)));
    let fetched = store.get_specific_instance("svc-1".to_string()).unwrap();
    assert_eq!(
        fetched.service_type,
        vec!["grooming".to_string(), "checkup".to_string()]
    );
}

#[test]
fn partial_update_of_reason_leaves_other_fields_alone() {
    let mut store = seeded_store_with_instance();
    let mut update = no_update();
    update.service_reason = Some("follow-up visit".to_string());
    let affected = store
        .update_service_instance(update, "svc-1".to_string())
        .unwrap();
    assert_eq!(affected, 1);
    let fetched = store.get_specific_instance("svc-1".to_string()).unwrap();
    assert_eq!(fetched.service_reason, "follow-up visit");
    assert_eq!(fetched.service_date, "2024-03-01");
    assert_eq!(fetched.general_diagnosis, "healthy");
    assert!(!fetched.requires_followup);
    assert_eq!(fetched.followup_date, None);
    assert_eq!(
        fetched.service_type,
        vec!["grooming".to_string(), "checkup".to_string()]
    );
}

#[test]
fn scalar_update_of_missing_instance_affects_zero_rows() {
    let mut store = seeded_store_with_instance();
    let mut update = no_update();
    update.service_reason = Some("anything".to_string());
    let affected = store
        .update_service_instance(update, "svc-ghost".to_string())
        .unwrap();
    assert_eq!(affected, 0);
}

#[test]
fn empty_update_still_touches_the_row() {
    let mut store = seeded_store_with_instance();
    let affected = store
        .update_service_instance(no_update(), "svc-1".to_string())
        .unwrap();
    assert_eq!(affected, 1);
    let fetched = store.get_specific_instance("svc-1".to_string()).unwrap();
    assert_eq!(fetched.service_reason, "annual visit");
}

#[test]
fn surgery_partial_update_keeps_unsupplied_columns() {
    let mut store = seeded_store_with_instance();
    let fetched = store.get_specific_instance("svc-1".to_string()).unwrap();
    let surgery_id = fetched.surgery.unwrap().surgery_id;
    let affected = store
        .update_surgery(
            UpdateSurgery {
                surgery_name: None,
                anesthesia_used: None,
                veterinarian_diagnosis: Some("gingivitis".to_string()),
                complications: None,
                outcome: Some("excellent".to_string()),
                vet_id: None,
            },
            surgery_id,
        )
        .unwrap();
    assert_eq!(affected, 1);
    let fetched = store.get_specific_instance("svc-1".to_string()).unwrap();
    let surgery = fetched.surgery.unwrap();
    assert_eq!(surgery.surgery_name, "dental cleaning");
    assert_eq!(surgery.anesthesia_used.as_deref(), Some("isoflurane"));
    assert_eq!(
        surgery.veterinarian_diagnosis.as_deref(),
        Some("gingivitis")
    );
    assert_eq!(surgery.complications.as_deref(), Some("none"));
    assert_eq!(surgery.outcome.as_deref(), Some("excellent"));
}

#[test]
fn surgery_update_of_missing_id_affects_zero_rows() {
    let mut store = seeded_store_with_instance();
    let affected = store
        .update_surgery(
            UpdateSurgery {
                surgery_name: Some("anything".to_string()),
                anesthesia_used: None,
                veterinarian_diagnosis: None,
                complications: None,
                outcome: None,
                vet_id: None,
            },
            4242,
        )
        .unwrap();
    assert_eq!(affected, 0);
}

#[test]
fn surgery_update_to_unknown_vet_fails() {
    let mut store = seeded_store_with_instance();
    let fetched = store.get_specific_instance("svc-1".to_string()).unwrap();
    let surgery_id = fetched.surgery.unwrap().surgery_id;
    let result = store.update_surgery(
        UpdateSurgery {
            surgery_name: None,
            anesthesia_used: None,
            veterinarian_diagnosis: None,
            complications: None,
            outcome: None,
            vet_id: Some("vet-missing".to_string()),
        },
        surgery_id,
    );
    assert!(matches!(result, Err(StoreError::Storage)));
}

#[test]
fn duplicate_vet_insert_is_a_conflict() {
    let mut store = ServiceInstanceQueries::new();
    store
        .insert_vet(
            "vet-1".to_string(),
            "Dr. Ada".to_string(),
            "ada@clinic.test".to_string(),
            "555-0100".to_string(),
            "LIC-1".to_string(),
        )
        .unwrap();
    let again = store.insert_vet(
        "vet-1".to_string(),
        "Dr. Bo".to_string(),
        "bo@clinic.test".to_string(),
        "555-0101".to_string(),
        "LIC-2".to_string(),
    );
    assert!(matches!(again, Err(StoreError::Conflict)));
}

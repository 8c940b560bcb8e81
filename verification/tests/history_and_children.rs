use pet_api::db::error::StoreError;
use pet_api::db::service_instance_queries::ServiceInstanceQueries;
use pet_api::schemas::service_instance_schema::AddPreventiveCareToExisting;

fn seeded_store() -> ServiceInstanceQueries {
    let mut store = ServiceInstanceQueries::new();
    store
        .insert_vet(
            "vet-1".to_string(),
            "Dr. Ada".to_string(),
            "ada@clinic.test".to_string(),
            "555-0100".to_string(),
            "LIC-1".to_string(),
        )
        .unwrap();
    store.register_pet("pet-1".to_string()).unwrap();
    store.register_pet("pet-2".to_string()).unwrap();
    store
}

fn bare_create(store: &mut ServiceInstanceQueries, id: &str, pet: &str, tags: Vec<&str>) {
    store
        .insert_service_instance(
            id.to_string(),
            "2024-03-01".to_string(),
            tags.into_iter().map(|t| t.to_string()).collect(),
            "visit".to_string(),
            "fine".to_string(),
            false,
            None,
            pet.to_string(),
            None,
            None,
            None,
        )
        .unwrap();
}

#[test]
fn history_groups_tags_per_instance_in_ascending_id_order() {
    let mut store = seeded_store();
    // Inserted out of id order on purpose; one of the three has no tags, and
    // a second pet's instance must not leak in.
    bare_create(&mut store, "svc-c", "pet-1", vec![]);
    bare_create(&mut store, "svc-a", "pet-1", vec!["grooming", "checkup"]);
    bare_create(&mut store, "svc-b", "pet-1", vec!["surgery", "dental"]);
    bare_create(&mut store, "svc-x", "pet-2", vec!["other"]);

    let history = store
        .get_services_history_of_pet(10, 0, "pet-1".to_string())
        .unwrap();
    assert_eq!(history.len(), 3);
    assert_eq!(history[0].service_instance_id, "svc-a");
    assert_eq!(history[1].service_instance_id, "svc-b");
    assert_eq!(history[2].service_instance_id, "svc-c");
    assert_eq!(
        history[0].service_type,
        vec!["grooming".to_string(), "checkup".to_string()]
    );
    assert_eq!(
        history[1].service_type,
        vec!["surgery".to_string(), "dental".to_string()]
    );
    // An instance without tags appears once, with an empty tag list rather
    // than a null entry.
    assert_eq!(history[2].service_type, Vec::<String>::new());
}

#[test]
fn history_is_paginated_by_whole_entries() {
    let mut store = seeded_store();
    bare_create(&mut store, "svc-a", "pet-1", vec!["one"]);
    bare_create(&mut store, "svc-b", "pet-1", vec!["two"]);
    bare_create(&mut store, "svc-c", "pet-1", vec!["three"]);

    let page = store
        .get_services_history_of_pet(1, 1, "pet-1".to_string())
        .unwrap();
    assert_eq!(page.len(), 1);
    assert_eq!(page[0].service_instance_id, "svc-b");

    let beyond = store
        .get_services_history_of_pet(5, 10, "pet-1".to_string())
        .unwrap();
    assert_eq!(beyond.len(), 0);
}

#[test]
fn history_rejects_negative_window() {
    let store = ServiceInstanceQueries::new();
    assert!(matches!(
        store.get_services_history_of_pet(-1, 0, "pet-1".to_string()),
        Err(StoreError::Storage)
    ));
    assert!(matches!(
        store.get_services_history_of_pet(10, -3, "pet-1".to_string()),
        Err(StoreError::Storage)
    ));
}

#[test]
fn history_of_unknown_pet_is_empty() {
    let mut store = seeded_store();
    bare_create(&mut store, "svc-a", "pet-1", vec!["one"]);
    let history = store
        .get_services_history_of_pet(10, 0, "pet-ghost".to_string())
        .unwrap();
    assert_eq!(history.len(), 0);
}

#[test]
fn added_groomings_get_fresh_ids_and_count() {
    let mut store = seeded_store();
    bare_create(&mut store, "svc-a", "pet-1", vec![]);
    let affected = store
        .add_grooming(
            "svc-a".to_string(),
            vec!["bath".to_string(), "trim".to_string()],
        )
        .unwrap();
    assert_eq!(affected, 2);
    let fetched = store.get_specific_instance("svc-a".to_string()).unwrap();
    let groomings = fetched.grooming.unwrap();
    assert_eq!(groomings.len(), 2);
    assert_ne!(groomings[0].grooming_id, groomings[1].grooming_id);
    assert_eq!(groomings[0].grooming_type, "bath");
    assert_eq!(groomings[1].grooming_type, "trim");
}

#[test]
fn adding_groomings_to_missing_instance_fails() {
    let mut store = seeded_store();
    let result = store.add_grooming("svc-ghost".to_string(), vec!["bath".to_string()]);
    assert!(matches!(result, Err(StoreError::Storage)));
    // With nothing to insert there is no statement to fail.
    let affected = store.add_grooming("svc-ghost".to_string(), vec![]).unwrap();
    assert_eq!(affected, 0);
}

#[test]
fn added_treatments_share_the_supplied_vet() {
    let mut store = seeded_store();
    bare_create(&mut store, "svc-a", "pet-1", vec![]);
    let affected = store
        .add_preventive_care(
            AddPreventiveCareToExisting {
                treatment: vec!["vaccine".to_string(), "deworming".to_string()],
                vet_id: "vet-1".to_string(),
                service_instance_id: "svc-a".to_string(),
            },
            "svc-a".to_string(),
        )
        .unwrap();
    assert_eq!(affected, 2);
    let fetched = store.get_specific_instance("svc-a".to_string()).unwrap();
    let cares = fetched.preventive_care.unwrap();
    assert_eq!(cares.len(), 2);
    assert_eq!(cares[0].treatment, "vaccine");
    assert_eq!(cares[1].treatment, "deworming");
    assert_eq!(cares[0].vet.vet_name, "Dr. Ada");
    assert_eq!(cares[1].vet.vet_name, "Dr. Ada");
}

#[test]
fn adding_treatments_with_unknown_vet_fails() {
    let mut store = seeded_store();
    bare_create(&mut store, "svc-a", "pet-1", vec![]);
    let result = store.add_preventive_care(
        AddPreventiveCareToExisting {
            treatment: vec!["vaccine".to_string()],
            vet_id: "vet-missing".to_string(),
            service_instance_id: "svc-a".to_string(),
        },
        "svc-a".to_string(),
    );
    assert!(matches!(result, Err(StoreError::Storage)));
}

#[test]
fn deleting_missing_children_signals_zero_rows() {
    let mut store = seeded_store();
    assert_eq!(store.delete_grooming(42).unwrap(), 0);
    assert_eq!(store.delete_preventive_care(42).unwrap(), 0);
    assert_eq!(store.delete_surgery(42).unwrap(), 0);
    assert_eq!(
        store
            .delete_service_instance("svc-ghost".to_string())
            .unwrap(),
        0
    );
}

#[test]
fn deleting_a_grooming_removes_only_that_row() {
    let mut store = seeded_store();
    bare_create(&mut store, "svc-a", "pet-1", vec![]);
    store
        .add_grooming(
            "svc-a".to_string(),
            vec!["bath".to_string(), "trim".to_string()],
        )
        .unwrap();
    let fetched = store.get_specific_instance("svc-a".to_string()).unwrap();
    let groomings = fetched.grooming.unwrap();
    let first_id = groomings[0].grooming_id;
    assert_eq!(store.delete_grooming(first_id).unwrap(), 1);
    let fetched = store.get_specific_instance("svc-a".to_string()).unwrap();
    let groomings = fetched.grooming.unwrap();
    assert_eq!(groomings.len(), 1);
    assert_eq!(groomings[0].grooming_type, "trim");
    // A second delete of the same id affects nothing.
    assert_eq!(store.delete_grooming(first_id).unwrap(), 0);
}

#[test]
fn deleting_the_parent_leaves_children_orphaned() {
    let mut store = seeded_store();
    bare_create(&mut store, "svc-a", "pet-1", vec!["checkup"]);
    store
        .add_grooming("svc-a".to_string(), vec!["bath".to_string()])
        .unwrap();
    assert_eq!(
        store.delete_service_instance("svc-a".to_string()).unwrap(),
        1
    );
    assert!(matches!(
        store.get_specific_instance("svc-a".to_string()),
        Err(StoreError::NotFound)
    ));
    // The grooming row survives the parent's deletion and must be removed by
    // its own id.
    assert_eq!(store.delete_grooming(1).unwrap(), 1);
}

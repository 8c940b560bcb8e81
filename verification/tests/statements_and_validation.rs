use pet_api::db::error::StoreError;
use pet_api::db::statements::{
    build_update_statement, CREATE_GROOMING, CREATE_SERVICE_INSTANCE, DELETE_GROOMING,
    GET_SERVICES_HISTORY_OF_PET, GET_SPECIFIC_SERVICE_INSTANCE,
};
use pet_api::utils::text::str_compare_lt;
use pet_api::schemas::owner_schema::UpdateOwner;
use pet_api::schemas::vet_schema::UpdateVet;
use pet_api::utils::validator::{validate_field, validate_owner_fields, validate_vet_fields};

#[test]
fn update_statement_renders_supplied_columns_in_order() {
    let pairs = vec![
        ("surgery_name".to_string(), "spay".to_string()),
        ("outcome".to_string(), "good".to_string()),
    ];
    let (text, params) =
        build_update_statement("surgery", &pairs, "surgery_id", &"7".to_string());
    assert_eq!(
        text,
        "UPDATE surgery SET surgery_name = ?, outcome = ? WHERE surgery_id = ?"
    );
    assert_eq!(
        params,
        vec!["spay".to_string(), "good".to_string(), "7".to_string()]
    );
}

#[test]
fn update_statement_with_one_column_has_no_separator() {
    let pairs = vec![("service_reason".to_string(), "follow-up".to_string())];
    let (text, params) = build_update_statement(
        "service_instance",
        &pairs,
        "service_instance_id",
        &"svc-1".to_string(),
    );
    assert_eq!(
        text,
        "UPDATE service_instance SET service_reason = ? WHERE service_instance_id = ?"
    );
    assert_eq!(params, vec!["follow-up".to_string(), "svc-1".to_string()]);
}

#[test]
fn update_statement_without_columns_touches_the_key_only() {
    let pairs: Vec<(String, String)> = Vec::new();
    let (text, params) = build_update_statement(
        "service_instance",
        &pairs,
        "service_instance_id",
        &"svc-1".to_string(),
    );
    // The degenerate update sets the primary key to itself: it still executes
    // and still touches the row, changing nothing.
    assert_eq!(
        text,
        "UPDATE service_instance SET service_instance_id = ? WHERE service_instance_id = ?"
    );
    assert_eq!(params, vec!["svc-1".to_string(), "svc-1".to_string()]);
}

#[test]
fn statement_templates_bind_every_value() {
    // Every template is fully parameterized: no quote characters, and each
    // statement carries at least one placeholder.
    for template in [
        CREATE_SERVICE_INSTANCE,
        CREATE_GROOMING,
        GET_SPECIFIC_SERVICE_INSTANCE,
        GET_SERVICES_HISTORY_OF_PET,
        DELETE_GROOMING,
    ] {
        assert!(template.contains('?'));
        assert!(!template.contains('\''));
    }
}

#[test]
fn absent_fields_pass_validation() {
    assert!(validate_field(&None, "must not be blank").is_ok());
}

#[test]
fn blank_fields_fail_with_the_supplied_message() {
    let result = validate_field(&Some("   \t".to_string()), "Owner name cannot be empty");
    assert_eq!(result, Err("Owner name cannot be empty".to_string()));
    let empty = validate_field(&Some(String::new()), "Owner name cannot be empty");
    assert_eq!(empty, Err("Owner name cannot be empty".to_string()));
}

#[test]
fn unicode_whitespace_counts_as_blank() {
    let result = validate_field(&Some("\u{2003}\u{00a0}".to_string()), "blank");
    assert_eq!(result, Err("blank".to_string()));
}

#[test]
fn nonblank_fields_pass() {
    assert!(validate_field(&Some("  x ".to_string()), "blank").is_ok());
}

#[test]
fn owner_validation_reports_the_first_blank_field() {
    let body = UpdateOwner {
        owner_name: Some("Pat".to_string()),
        owner_email: Some(" ".to_string()),
        owner_phone_number: None,
        owner_address: Some(" ".to_string()),
    };
    assert_eq!(
        validate_owner_fields(&body),
        Err("Owner email cannot be empty".to_string())
    );
    let ok = UpdateOwner {
        owner_name: Some("Pat".to_string()),
        owner_email: None,
        owner_phone_number: None,
        owner_address: None,
    };
    assert!(validate_owner_fields(&ok).is_ok());
}

#[test]
fn vet_validation_reports_the_first_blank_field() {
    let body = UpdateVet {
        vet_name: None,
        vet_email: None,
        vet_phone_number: Some("".to_string()),
        vet_license_number: None,
    };
    assert_eq!(
        validate_vet_fields(&body),
        Err("Vet phone number cannot be empty".to_string())
    );
}

#[test]
fn error_kinds_have_short_messages() {
    assert_eq!(StoreError::NotFound.message(), "row not found");
    assert_eq!(StoreError::Conflict.message(), "duplicate entry");
    assert_eq!(StoreError::Storage.message(), "storage error");
}

#[test]
fn id_comparison_is_lexicographic() {
    assert!(str_compare_lt("svc-a", "svc-b"));
    assert!(!str_compare_lt("svc-b", "svc-a"));
    assert!(!str_compare_lt("svc-a", "svc-a"));
    assert!(str_compare_lt("svc", "svc-a"));
    assert!(str_compare_lt("", "a"));
}

//! Local metadata validation: resource existence and uniqueness, license
//! count, length bounds and placeholder detection, all before any network
//! step exists.

use kaggle::models::metadata::{Field, Metadata, Resource, Schema};
use kaggle::models::License;
use kaggle::dataset_flow::{validate_dataset_create, validate_dataset_version};
use kaggle::KaggleError;

fn resource(path: &str) -> Resource {
    Resource { path: path.to_string(), description: format!("{} resource", path), schema: None }
}

fn base_metadata() -> Metadata {
    Metadata {
        title: "My Dataset Title".to_string(),
        subtitle: None,
        description: "A dataset".to_string(),
        id: "alice/my-data-set".to_string(),
        id_no: None,
        code_file: None,
        language: None,
        kernel_type: None,
        is_private: None,
        enable_gpu: None,
        enable_internet: None,
        collaborators: vec![],
        licenses: vec![License::Cc010],
        resources: vec![resource("data.csv")],
        keywords: vec![],
        kernel_sources: vec![],
        dataset_sources: vec![],
        competition_sources: vec![],
        data: None,
    }
}

#[test]
fn valid_metadata_passes() {
    let m = base_metadata();
    let existing = vec!["data.csv".to_string()];
    let (owner, slug) = validate_dataset_create("bob", &m, &existing).unwrap();
    assert_eq!(owner, "alice");
    assert_eq!(slug, "my-data-set");
}

#[test]
fn duplicate_resource_path_is_a_path_specific_error() {
    let mut m = base_metadata();
    m.resources = vec![resource("data.csv"), resource("other.csv"), resource("data.csv")];
    let existing = vec!["data.csv".to_string(), "other.csv".to_string()];
    let e = m.validate_resource(&existing).unwrap_err();
    match e {
        KaggleError::Metadata { msg } => {
            assert_eq!(msg, "path data.csv was specified more than once in the metadata");
        }
        other => panic!("expected a metadata error, got {:?}", other),
    }
    // The same metadata can never reach an upload: creation validation
    // rejects it outright.
    assert!(validate_dataset_create("bob", &m, &existing).is_err());
}

#[test]
fn missing_resource_is_reported_with_its_path() {
    let mut m = base_metadata();
    m.resources = vec![resource("data.csv"), resource("gone.csv")];
    let existing = vec!["data.csv".to_string()];
    match m.validate_resource(&existing).unwrap_err() {
        KaggleError::FileNotFound(p) => assert_eq!(p, "gone.csv"),
        other => panic!("expected file-not-found, got {:?}", other),
    }
}

#[test]
fn missing_file_wins_over_duplicate_at_the_same_resource() {
    let mut m = base_metadata();
    m.resources = vec![resource("gone.csv"), resource("gone.csv")];
    let existing: Vec<String> = vec![];
    assert!(matches!(
        m.validate_resource(&existing).unwrap_err(),
        KaggleError::FileNotFound(_)
    ));
}

#[test]
fn zero_licenses_fail_creation() {
    let mut m = base_metadata();
    m.licenses = vec![];
    let existing = vec!["data.csv".to_string()];
    assert!(validate_dataset_create("bob", &m, &existing).is_err());
}

#[test]
fn two_licenses_fail_creation() {
    let mut m = base_metadata();
    m.licenses = vec![License::Cc010, License::Other];
    let existing = vec!["data.csv".to_string()];
    assert!(validate_dataset_create("bob", &m, &existing).is_err());
}

#[test]
fn placeholder_slug_fails_creation() {
    let mut m = base_metadata();
    m.id = "alice/INSERT_SLUG_HERE".to_string();
    let existing = vec!["data.csv".to_string()];
    assert!(validate_dataset_create("bob", &m, &existing).is_err());
}

#[test]
fn placeholder_title_fails_creation() {
    let mut m = base_metadata();
    m.title = "INSERT_SLUG_HERE".to_string();
    let existing = vec!["data.csv".to_string()];
    assert!(validate_dataset_create("bob", &m, &existing).is_err());
}

#[test]
fn slug_length_bounds_are_six_to_fifty() {
    let existing = vec!["data.csv".to_string()];
    let mut m = base_metadata();
    m.id = "alice/short".to_string();
    assert!(validate_dataset_create("bob", &m, &existing).is_err());
    m.id = "alice/sixsix".to_string();
    assert!(validate_dataset_create("bob", &m, &existing).is_ok());
    m.id = format!("alice/{}", "s".repeat(50));
    assert!(validate_dataset_create("bob", &m, &existing).is_ok());
    m.id = format!("alice/{}", "s".repeat(51));
    assert!(validate_dataset_create("bob", &m, &existing).is_err());
}

#[test]
fn title_length_bounds_are_six_to_fifty() {
    let existing = vec!["data.csv".to_string()];
    let mut m = base_metadata();
    m.title = "five5".to_string();
    assert!(validate_dataset_create("bob", &m, &existing).is_err());
    m.title = "t".repeat(6);
    assert!(validate_dataset_create("bob", &m, &existing).is_ok());
    m.title = "t".repeat(51);
    assert!(validate_dataset_create("bob", &m, &existing).is_err());
}

#[test]
fn subtitle_bounds_are_twenty_to_eighty_when_present() {
    let existing = vec!["data.csv".to_string()];
    let mut m = base_metadata();
    m.subtitle = Some("s".repeat(19));
    assert!(validate_dataset_create("bob", &m, &existing).is_err());
    m.subtitle = Some("s".repeat(20));
    assert!(validate_dataset_create("bob", &m, &existing).is_ok());
    m.subtitle = Some("s".repeat(80));
    assert!(validate_dataset_create("bob", &m, &existing).is_ok());
    m.subtitle = Some("s".repeat(81));
    assert!(validate_dataset_create("bob", &m, &existing).is_err());
    assert!(validate_dataset_version(&m, &existing).is_err());
    m.subtitle = Some("s".repeat(25));
    assert!(validate_dataset_version(&m, &existing).is_ok());
}

#[test]
fn kernel_source_identifiers_are_checked() {
    assert!(Metadata::is_valid_kernel_string("user/kernel-slug").is_ok());
    assert!(Metadata::is_valid_kernel_string("user/abcd").is_err());
    assert!(Metadata::is_valid_kernel_string("nokernel").is_err());

    let mut m = base_metadata();
    m.kernel_sources = vec!["user/kernel-slug".to_string(), "bad".to_string()];
    assert!(m.is_kernel_sources_valid().is_err());
    m.kernel_sources = vec!["user/kernel-slug".to_string()];
    assert!(m.is_kernel_sources_valid().is_ok());

    m.dataset_sources = vec!["alice/data".to_string(), "nodataset".to_string()];
    assert!(m.is_dataset_sources_valid().is_err());
    m.dataset_sources = vec!["alice/data".to_string()];
    assert!(m.is_dataset_sources_valid().is_ok());
}

#[test]
fn owner_and_dataset_slug_read_the_identifier() {
    let m = base_metadata();
    assert_eq!(m.owner_slug(), "alice");
    assert_eq!(m.dataset_slug(), Some("my-data-set"));
    let mut bare = base_metadata();
    bare.id = "solo".to_string();
    assert_eq!(bare.owner_slug(), "solo");
    assert_eq!(bare.dataset_slug(), None);
}

#[test]
fn update_settings_request_carries_the_metadata_over() {
    let mut m = base_metadata();
    m.subtitle = Some("a subtitle of proper length".to_string());
    m.is_private = Some(true);
    m.keywords = vec!["finance".to_string()];
    let title = m.title.clone();
    let settings = kaggle::models::DatasetUpdateSettingsRequest::from(m);
    assert_eq!(settings.title, Some(title));
    assert_eq!(settings.subtitle, Some("a subtitle of proper length".to_string()));
    assert_eq!(settings.is_private, Some(true));
    assert_eq!(settings.keywords, vec!["finance".to_string()]);
}

#[test]
fn schema_fields_ride_through_validation() {
    let mut m = base_metadata();
    m.resources = vec![Resource {
        path: "data.csv".to_string(),
        description: "table".to_string(),
        schema: Some(Schema {
            fields: vec![Field {
                name: "c".to_string(),
                description: None,
                type_field: Some("string".to_string()),
            }],
        }),
    }];
    let existing = vec!["data.csv".to_string()];
    assert!(m.validate_resource(&existing).is_ok());
}

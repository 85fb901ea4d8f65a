//! The transport-facing helpers: the authorization header, URL resolution,
//! endpoint paths, status mapping and error messages.

use kaggle::client::{basic_auth_header, dataset_metadata_path, kernel_metadata_path,
    KaggleApiClient};
use kaggle::endpoints;
use kaggle::error::{map_status, status_is_success, ApiError};
use kaggle::strutil::{ascii_lower, i64_to_string, u64_to_string};
use kaggle::KaggleError;

#[test]
fn the_authorization_header_is_the_encoded_credentials() {
    // base64("name:key") under the standard alphabet with padding.
    assert_eq!(basic_auth_header("name", "key"), "Basic bmFtZTprZXk=");
    assert_eq!(basic_auth_header("", ""), "Basic Og==");
}

#[test]
fn paths_resolve_against_the_base_url() {
    let client = KaggleApiClient::new(
        "alice".to_string(),
        "https://www.kaggle.com/api/v1/".to_string(),
        ".".to_string(),
    );
    assert_eq!(
        client.join_url("competitions/list").unwrap(),
        "https://www.kaggle.com/api/v1/competitions/list"
    );
    // A path with a leading slash resolves from the host root.
    assert_eq!(
        client.join_url("/kernels/push").unwrap(),
        "https://www.kaggle.com/kernels/push"
    );
}

#[test]
fn endpoint_paths_are_built_exactly() {
    assert_eq!(endpoints::competitions_list_path(), "competitions/list");
    assert_eq!(
        endpoints::competition_leaderboard_download_path("digits"),
        "competitions/digits/leaderboard/download"
    );
    assert_eq!(
        endpoints::competition_data_download_file_path("digits", "train.csv"),
        "/competitions/data/download/digits/train.csv"
    );
    assert_eq!(
        endpoints::competition_submissions_upload_path("g-1", 2048, 1700000000),
        "/competitions/submissions/upload/g-1/2048/1700000000"
    );
    assert_eq!(
        endpoints::competition_submissions_url_path("digits", 100, 1600000000),
        "/competitions/digits/submissions/url/100/1600000000"
    );
    assert_eq!(endpoints::datasets_create_new_path(), "/datasets/create/new");
    assert_eq!(
        endpoints::datasets_create_version_path("alice", "my-data"),
        "/datasets/create/version/alice/my-data"
    );
    assert_eq!(
        endpoints::datasets_create_version_by_id_path(7),
        "/datasets/create/version/7"
    );
    assert_eq!(
        endpoints::datasets_upload_file_path(10, 1600000000),
        "datasets/upload/file/10/1600000000"
    );
    assert_eq!(
        endpoints::datasets_list_files_path("alice", "my-data"),
        "datasets/list/alice/my-data"
    );
    assert_eq!(
        endpoints::datasets_view_path("alice", "my-data"),
        "datasets/view/alice/my-data"
    );
    assert_eq!(
        endpoints::kernel_status_path("alice", "my-kernel"),
        "kernels/status?userName=alice&kernelSlug=my-kernel"
    );
    assert_eq!(
        endpoints::kernel_output_path("alice", "my-kernel"),
        "kernels/output?userName=alice&kernelSlug=my-kernel"
    );
}

#[test]
fn decimal_rendering_is_exact() {
    assert_eq!(u64_to_string(0), "0");
    assert_eq!(u64_to_string(1600000000), "1600000000");
    assert_eq!(u64_to_string(u64::MAX), "18446744073709551615");
    assert_eq!(i64_to_string(-42), "-42");
    assert_eq!(i64_to_string(7), "7");
    assert_eq!(i64_to_string(i64::MIN), "-9223372036854775808");
}

#[test]
fn status_codes_map_to_the_error_taxonomy() {
    assert!(status_is_success(200));
    assert!(status_is_success(204));
    assert!(!status_is_success(199));
    assert!(!status_is_success(300));

    assert!(matches!(map_status(401, None), ApiError::Unauthorized));
    assert!(matches!(map_status(429, Some("120")), ApiError::RateLimited(Some(120))));
    assert!(matches!(map_status(429, None), ApiError::RateLimited(None)));
    assert!(matches!(map_status(429, Some("soon")), ApiError::RateLimited(None)));
    assert!(matches!(map_status(404, None), ApiError::Other(404)));
    assert!(matches!(map_status(500, Some("3")), ApiError::Other(500)));
}

#[test]
fn error_messages_name_the_failure() {
    assert_eq!(
        KaggleError::FileNotFound("data.csv".to_string()).message(),
        "File not found data.csv"
    );
    assert_eq!(KaggleError::meta("broken").message(), "Metadata error: broken");
    assert_eq!(
        KaggleError::Api { err: ApiError::Unauthorized }.message(),
        "Unauthorized request to API"
    );
    assert_eq!(
        KaggleError::Api { err: ApiError::Other(503) }.message(),
        "Kaggle API reported error code 503"
    );
    let server = kaggle::models::Error::new(Some(400), Some("bad slug".to_string()));
    assert_eq!(KaggleError::Api { err: ApiError::ServerError(server) }.message(), "bad slug");
    let bare = kaggle::models::Error::new(None, None);
    assert_eq!(
        KaggleError::Api { err: ApiError::ServerError(bare) }.message(),
        "unknown server error"
    );
}

#[test]
fn metadata_files_are_resolved_with_the_legacy_fallback() {
    assert_eq!(
        dataset_metadata_path("ds", true, true, false, false).unwrap(),
        "ds/dataset-metadata.json"
    );
    assert_eq!(
        dataset_metadata_path("ds", true, false, true, false).unwrap(),
        "ds/datapackage.json"
    );
    match dataset_metadata_path("ds", true, false, false, false).unwrap_err() {
        KaggleError::FileNotFound(p) => assert_eq!(p, "ds/dataset-metadata.json"),
        other => panic!("expected file-not-found, got {:?}", other),
    }
    assert_eq!(
        dataset_metadata_path("direct.json", false, false, false, true).unwrap(),
        "direct.json"
    );
    assert!(dataset_metadata_path("direct.json", false, false, false, false).is_err());

    assert_eq!(
        kernel_metadata_path("nb", true, true, false).unwrap(),
        "nb/kernel-metadata.json"
    );
    assert!(kernel_metadata_path("nb", true, false, false).is_err());
}

#[test]
fn ascii_folding_lowers_only_ascii_letters() {
    assert_eq!(ascii_lower("Date"), "date");
    assert_eq!(ascii_lower("MIXED-Case_09"), "mixed-case_09");
    assert_eq!(ascii_lower(""), "");
}

//! End-to-end flow scenarios: the dataset creation pipeline issues exactly
//! one ticket request, one upload and one create submission, in that order;
//! invalid metadata never produces a network step at all.

use kaggle::archive::ArchiveMode;
use kaggle::competition_flow::{CompetitionStep, CompetitionSubmitFlow};
use kaggle::dataset_flow::{CreateStep, DatasetCreateFlow, DatasetVersionFlow, VersionStep,
    VersionTarget};
use kaggle::models::extended::{DatasetNewResponse, FileUploadInfo};
use kaggle::models::metadata::{Metadata, Resource};
use kaggle::models::{DatasetNew, License};
use kaggle::ticket::{TicketFields, UploadTarget};
use kaggle::upload::{FolderEntry, UploadPlanItem};
use kaggle::KaggleError;

fn metadata() -> Metadata {
    Metadata {
        title: "My Dataset Title".to_string(),
        subtitle: None,
        description: "A dataset".to_string(),
        id: "alice/my-data-set".to_string(),
        id_no: None,
        code_file: None,
        language: None,
        kernel_type: None,
        is_private: None,
        enable_gpu: None,
        enable_internet: None,
        collaborators: vec![],
        licenses: vec![License::Cc010],
        resources: vec![Resource {
            path: "data.csv".to_string(),
            description: "the data".to_string(),
            schema: None,
        }],
        keywords: vec!["finance".to_string()],
        kernel_sources: vec![],
        dataset_sources: vec![],
        competition_sources: vec![],
        data: None,
    }
}

fn folder_entries() -> Vec<FolderEntry> {
    vec![
        FolderEntry { name: "data.csv".to_string(), is_dir: false },
        FolderEntry { name: "dataset-metadata.json".to_string(), is_dir: false },
    ]
}

#[test]
fn dataset_create_runs_ticket_upload_submit_in_order() {
    let config = DatasetNew::with_metadata(metadata())
        .dataset_folder("ds".to_string())
        .public()
        .convert_to_csv(false);
    let entries = folder_entries();
    let existing = vec!["data.csv".to_string()];

    let mut tickets = 0;
    let mut uploads = 0;
    let mut submits = 0;

    let (mut flow, step) = DatasetCreateFlow::start("bob", config, &entries, &existing).unwrap();
    let file_name = match step {
        CreateStep::RequestTicket { file_name } => {
            tickets += 1;
            file_name
        }
        other => panic!("expected a ticket request first, got {:?}", other),
    };
    assert_eq!(file_name, "data.csv");

    let step = flow.on_ticket(FileUploadInfo {
        token: "tok-1".to_string(),
        create_url: "https://storage/put/1".to_string(),
    });
    match step {
        CreateStep::SendFile { item, url } => {
            uploads += 1;
            assert!(matches!(item, UploadPlanItem::SingleFile { ref name } if name == "data.csv"));
            assert_eq!(url, "https://storage/put/1");
        }
        other => panic!("expected an upload next, got {:?}", other),
    }

    let step = flow.on_uploaded();
    let request = match step {
        CreateStep::Submit { request } => {
            submits += 1;
            request
        }
        other => panic!("expected the final submission, got {:?}", other),
    };

    assert_eq!((tickets, uploads, submits), (1, 1, 1));
    assert_eq!(request.title(), "My Dataset Title");
    assert_eq!(request.slug().unwrap(), "my-data-set");
    assert_eq!(request.owner_slug().unwrap(), "alice");
    assert_eq!(request.license_name().unwrap(), "CC0-1.0");
    assert_eq!(request.description().unwrap(), "A dataset");
    assert!(!request.is_private());
    assert!(!request.convert_to_csv());
    assert_eq!(request.category_ids(), &vec!["finance".to_string()]);
    assert_eq!(request.files().len(), 1);
    assert_eq!(request.files()[0].token(), "tok-1");
    assert_eq!(request.files()[0].description().unwrap(), "the data");

    // The mocked transport answers with a success body; the response is the
    // flow's result.
    let response = DatasetNewResponse {
        ref_: Some("alice/my-data-set".to_string()),
        url: "https://host/alice/my-data-set".to_string(),
        status: "ok".to_string(),
        error: None,
    };
    assert!(response.is_success());
    assert!(!response.is_error());
    assert!(response.cause().is_none());
}

#[test]
fn placeholder_identifier_fails_before_any_network_step() {
    let mut m = metadata();
    m.id = "alice/INSERT_SLUG_HERE".to_string();
    let config = DatasetNew::with_metadata(m).dataset_folder("ds".to_string());
    let entries = folder_entries();
    let existing = vec!["data.csv".to_string()];
    // The flow refuses to start: no ticket, upload or submit step is ever
    // handed out.
    let e = DatasetCreateFlow::start("bob", config, &entries, &existing).unwrap_err();
    assert!(matches!(e, KaggleError::Metadata { .. }));
}

#[test]
fn license_violations_fail_before_any_network_step() {
    let mut m = metadata();
    m.licenses = vec![];
    let config = DatasetNew::with_metadata(m).dataset_folder("ds".to_string());
    let entries = folder_entries();
    let existing = vec!["data.csv".to_string()];
    assert!(DatasetCreateFlow::start("bob", config, &entries, &existing).is_err());
}

#[test]
fn directories_are_archived_before_upload() {
    let mut m = metadata();
    m.resources = vec![];
    let config = DatasetNew::with_metadata(m)
        .dataset_folder("ds".to_string())
        .archive_mode(ArchiveMode::Zip);
    let entries = vec![FolderEntry { name: "images".to_string(), is_dir: true }];
    let existing: Vec<String> = vec![];
    let (mut flow, step) = DatasetCreateFlow::start("bob", config, &entries, &existing).unwrap();
    match step {
        CreateStep::RequestTicket { file_name } => assert_eq!(file_name, "images"),
        other => panic!("expected a ticket request, got {:?}", other),
    }
    let step = flow.on_ticket(FileUploadInfo {
        token: "tok-dir".to_string(),
        create_url: "https://storage/put/dir".to_string(),
    });
    match step {
        CreateStep::SendFile { item, .. } => match item {
            UploadPlanItem::ArchivedDirectory { name, archive_name } => {
                assert_eq!(name, "images");
                assert_eq!(archive_name, "images.zip");
            }
            other => panic!("expected an archived directory, got {:?}", other),
        },
        other => panic!("expected an upload, got {:?}", other),
    }
}

#[test]
fn skip_mode_omits_directories_and_submits_without_them() {
    let mut m = metadata();
    m.resources = vec![];
    let config = DatasetNew::with_metadata(m).dataset_folder("ds".to_string());
    let entries = vec![FolderEntry { name: "images".to_string(), is_dir: true }];
    let existing: Vec<String> = vec![];
    let (_flow, step) = DatasetCreateFlow::start("bob", config, &entries, &existing).unwrap();
    match step {
        CreateStep::Submit { request } => assert_eq!(request.files().len(), 0),
        other => panic!("expected an immediate submission, got {:?}", other),
    }
}

#[test]
fn version_flow_prefers_the_numeric_id() {
    let mut m = metadata();
    m.id_no = Some(77);
    let entries = folder_entries();
    let existing = vec!["data.csv".to_string()];
    let (mut flow, step) = DatasetVersionFlow::start(
        "alice",
        m,
        "second version".to_string(),
        true,
        false,
        ArchiveMode::Skip,
        &entries,
        &existing,
    )
    .unwrap();
    assert!(matches!(step, VersionStep::RequestTicket { .. }));
    let step = flow.on_ticket(FileUploadInfo {
        token: "tok-2".to_string(),
        create_url: "https://storage/put/2".to_string(),
    });
    assert!(matches!(step, VersionStep::SendFile { .. }));
    let step = flow.on_uploaded().unwrap();
    match step {
        VersionStep::Submit { target, request } => {
            assert!(matches!(target, VersionTarget::ById { id: 77 }));
            assert_eq!(request.version_notes(), "second version");
            assert_eq!(request.convert_to_csv(), Some(&true));
            assert_eq!(request.delete_old_versions(), Some(&false));
            assert_eq!(request.files().len(), 1);
            assert_eq!(request.files()[0].token(), "tok-2");
        }
        other => panic!("expected the final submission, got {:?}", other),
    }
}

#[test]
fn version_flow_resolves_owner_and_slug_without_an_id() {
    let m = metadata();
    let entries: Vec<FolderEntry> = vec![];
    let existing = vec!["data.csv".to_string()];
    let (_flow, step) = DatasetVersionFlow::start(
        "bob",
        m,
        "notes".to_string(),
        false,
        true,
        ArchiveMode::Skip,
        &entries,
        &existing,
    )
    .unwrap();
    match step {
        VersionStep::Submit { target, request } => {
            match target {
                VersionTarget::ByName { owner_slug, dataset_slug } => {
                    assert_eq!(owner_slug, "alice");
                    assert_eq!(dataset_slug, "my-data-set");
                }
                other => panic!("expected owner/slug, got {:?}", other),
            }
            assert_eq!(request.files().len(), 0);
        }
        other => panic!("expected an immediate submission, got {:?}", other),
    }
}

#[test]
fn version_flow_rejects_the_placeholder_identifier() {
    let mut m = metadata();
    m.id = "bob/INSERT_SLUG_HERE".to_string();
    let entries: Vec<FolderEntry> = vec![];
    let existing = vec!["data.csv".to_string()];
    let e = DatasetVersionFlow::start(
        "bob",
        m,
        "notes".to_string(),
        false,
        false,
        ArchiveMode::Skip,
        &entries,
        &existing,
    )
    .unwrap_err();
    assert!(matches!(e, KaggleError::Metadata { .. }));
}

#[test]
fn competition_flow_direct_path_uses_the_ticket_token() {
    let (mut flow, step) =
        CompetitionSubmitFlow::start("digit-recognizer", "sub.csv", 100, 1600000000, "my entry");
    match step {
        CompetitionStep::RequestUrl { file_name, content_length, last_modified } => {
            assert_eq!(file_name, "sub.csv");
            assert_eq!(content_length, 100);
            assert_eq!(last_modified, 1600000000);
        }
        other => panic!("expected the url request, got {:?}", other),
    }
    let step = flow
        .on_ticket(TicketFields {
            has_is_complete: false,
            token: Some("ticket-token".to_string()),
            create_url: Some("https://storage/put/sub".to_string()),
        })
        .unwrap();
    match step {
        CompetitionStep::Upload { target } => {
            assert!(matches!(target, UploadTarget::Direct { ref url } if url == "https://storage/put/sub"));
        }
        other => panic!("expected the upload, got {:?}", other),
    }
    let step = flow.on_uploaded(None).unwrap();
    match step {
        CompetitionStep::Submit { token, message } => {
            assert_eq!(token, "ticket-token");
            assert_eq!(message, "my entry");
        }
        other => panic!("expected the submission, got {:?}", other),
    }
}

#[test]
fn competition_flow_legacy_path_uses_the_upload_token() {
    let (mut flow, _step) =
        CompetitionSubmitFlow::start("digit-recognizer", "sub.csv", 2048, 1700000000, "entry two");
    let step = flow
        .on_ticket(TicketFields {
            has_is_complete: true,
            token: None,
            create_url: Some("https://host/upload/g-1/2048/1700000000".to_string()),
        })
        .unwrap();
    match step {
        CompetitionStep::Upload { target } => match target {
            UploadTarget::Legacy { guid, content_length, last_modified } => {
                assert_eq!(guid, "g-1");
                assert_eq!(content_length, 2048);
                assert_eq!(last_modified, 1700000000);
            }
            other => panic!("expected the legacy path, got {:?}", other),
        },
        other => panic!("expected the upload, got {:?}", other),
    }
    let step = flow.on_uploaded(Some("upload-token".to_string())).unwrap();
    assert!(matches!(
        step,
        CompetitionStep::Submit { ref token, .. } if token == "upload-token"
    ));
}

#[test]
fn competition_flow_fails_without_any_token() {
    let (mut flow, _step) =
        CompetitionSubmitFlow::start("digit-recognizer", "sub.csv", 1, 2, "entry");
    let _ = flow
        .on_ticket(TicketFields {
            has_is_complete: false,
            token: None,
            create_url: Some("https://storage/put".to_string()),
        })
        .unwrap();
    assert!(flow.on_uploaded(None).is_err());
}

//! The data models: licenses, archive modes, upload planning, request
//! builders and kernel push assembly.

use kaggle::archive::ArchiveMode;
use kaggle::kernels::{build_kernel_push_request, kernel_slug_matches_title, pull_code_file_name};
use kaggle::models::extended::{KernelBlob, KernelMetadata, KernelPullResponse};
use kaggle::models::metadata::Metadata;
use kaggle::models::{
    Collaborator, DatasetNewRequest, DatasetNewVersionRequest, DatasetUploadFile, License,
};
use kaggle::query::{Language, PushKernelType, PushLanguageType};
use kaggle::request::{CompetitionsList, DatasetsList, KernelPullRequest, KernelsList};
use kaggle::upload::{plan_uploads, FolderEntry, UploadPlanItem};
use kaggle::KaggleError;

#[test]
fn license_names_round_trip() {
    let all = [
        License::Cc010,
        License::CcBySa40,
        License::Gpl20,
        License::OdbL10,
        License::CcByNcSa40,
        License::Unknown,
        License::DbCl10,
        License::CcBySa30,
        License::CopyrightAuthors,
        License::Other,
        License::RedditApi,
        License::WorldBank,
    ];
    for l in all {
        assert_eq!(License::from_name(l.name()), l);
    }
    assert_eq!(License::Other.name(), "other");
    assert_eq!(License::from_name("something else"), License::Other);
    assert_eq!(License::from_name("CC0-1.0"), License::Cc010);
}

#[test]
fn archive_destinations_follow_the_mode() {
    assert_eq!(ArchiveMode::Tar.archive_destination("images"), Some("images.tar.gz".to_string()));
    assert_eq!(ArchiveMode::Zip.archive_destination("images"), Some("images.zip".to_string()));
    assert_eq!(ArchiveMode::Skip.archive_destination("images"), None);
    assert_eq!(ArchiveMode::default(), ArchiveMode::Skip);
}

#[test]
fn upload_plans_skip_metadata_files_and_follow_the_archive_mode() {
    let entries = vec![
        FolderEntry { name: "data.csv".to_string(), is_dir: false },
        FolderEntry { name: "dataset-metadata.json".to_string(), is_dir: false },
        FolderEntry { name: "datapackage.json".to_string(), is_dir: false },
        FolderEntry { name: "kernel-metadata.json".to_string(), is_dir: false },
        FolderEntry { name: "images".to_string(), is_dir: true },
    ];
    let plan = plan_uploads(&entries, ArchiveMode::Zip);
    assert_eq!(plan.len(), 2);
    assert!(matches!(plan[0], UploadPlanItem::SingleFile { ref name } if name == "data.csv"));
    match &plan[1] {
        UploadPlanItem::ArchivedDirectory { name, archive_name } => {
            assert_eq!(name, "images");
            assert_eq!(archive_name, "images.zip");
        }
        other => panic!("expected an archived directory, got {:?}", other),
    }
    let plan = plan_uploads(&entries, ArchiveMode::Skip);
    assert_eq!(plan.len(), 1);
    assert!(matches!(plan[0], UploadPlanItem::SingleFile { ref name } if name == "data.csv"));
}

#[test]
fn the_create_request_builder_accumulates_its_fields() {
    let file = DatasetUploadFile::new("tok".to_string());
    let request: DatasetNewRequest = DatasetNewRequest::builder("A Title Here".to_string())
        .slug("a-slug-here")
        .owner_slug("alice")
        .license(License::OdbL10)
        .subtitle("twenty characters min")
        .description("described")
        .file(file)
        .public()
        .convert_to_csv(false)
        .category_id("finance")
        .build();
    assert_eq!(request.title(), "A Title Here");
    assert_eq!(request.slug().unwrap(), "a-slug-here");
    assert_eq!(request.owner_slug().unwrap(), "alice");
    assert_eq!(request.license_name().unwrap(), "ODbL-1.0");
    assert_eq!(request.subtitle().unwrap(), "twenty characters min");
    assert_eq!(request.description().unwrap(), "described");
    assert!(!request.is_private());
    assert!(!request.convert_to_csv());
    assert_eq!(request.category_ids(), &vec!["finance".to_string()]);
    assert_eq!(request.files().len(), 1);
    assert_eq!(request.files()[0].token(), "tok");
}

#[test]
fn the_version_request_setters_keep_their_fields() {
    let mut req = DatasetNewVersionRequest::new("notes".to_string(), vec![]);
    assert_eq!(req.version_notes(), "notes");
    req.set_subtitle("a reasonable subtitle".to_string());
    assert_eq!(req.subtitle().unwrap(), "a reasonable subtitle");
    req.reset_subtitle();
    assert!(req.subtitle().is_none());
    req.set_convert_to_csv(true);
    assert_eq!(req.convert_to_csv(), Some(&true));
    req.set_delete_old_versions(false);
    assert_eq!(req.delete_old_versions(), Some(&false));
    req.set_category_ids(vec!["x".to_string()]);
    assert_eq!(req.category_ids().unwrap(), &vec!["x".to_string()]);
}

#[test]
fn collaborators_keep_their_identity() {
    let c = Collaborator::new("alice", "writer");
    assert_eq!(c.username(), "alice");
    assert_eq!(c.role(), "writer");
}

#[test]
fn list_queries_start_from_their_documented_defaults() {
    let c = CompetitionsList::default();
    assert_eq!(c.page, 1);
    assert!(c.search.is_none());
    let c = CompetitionsList::new(3).search("health");
    assert_eq!(c.page, 3);
    assert_eq!(c.search.as_deref(), Some("health"));

    let k = KernelsList::default();
    assert_eq!((k.page, k.page_size), (1, 20));
    let k = KernelsList::with_page(2).page_size(50).user("alice").language(Language::Python);
    assert_eq!((k.page, k.page_size), (2, 50));
    assert_eq!(k.user.as_deref(), Some("alice"));
    assert_eq!(k.language, Language::Python);

    let d = DatasetsList::default();
    assert_eq!(d.page, 1);
    let d = DatasetsList::with_page(4).user("alice");
    assert_eq!(d.user.as_deref(), Some("alice"));
    let d = d.mine();
    assert!(d.user.is_none());

    let p = KernelPullRequest::new("alice/my-kernel").output("/tmp/out").with_metadata(true);
    assert_eq!(p.name, "alice/my-kernel");
    assert_eq!(p.output.as_deref(), Some("/tmp/out"));
    assert!(p.with_metadata);
}

#[test]
fn kernel_file_names_combine_slug_and_extension() {
    assert_eq!(
        PushKernelType::Script.file_extension(&Language::Python),
        Some(".py")
    );
    assert_eq!(
        PushKernelType::Notebook.file_extension(&Language::Sqlite),
        None
    );
    let pull = KernelPullResponse {
        metadata: KernelMetadata {
            id: 1,
            ref_: "alice/my-kernel".to_string(),
            title: "My Kernel".to_string(),
            author: "alice".to_string(),
            slug: "my-kernel".to_string(),
            last_run_time: None,
            language: None,
            kernel_type: None,
            is_private: None,
            enable_gpu: None,
            enable_internet: None,
            category_ids: vec![],
            dataset_data_sources: vec![],
            kernel_data_sources: vec![],
            competition_data_sources: vec![],
            total_votes: 0,
        },
        blob: KernelBlob {
            kernel_type: PushKernelType::Notebook,
            language: Language::Python,
            slug: "my-kernel".to_string(),
            source: "print(1)".to_string(),
        },
    };
    assert_eq!(pull.code_file_name().unwrap(), "my-kernel.ipynb");
}

#[test]
fn kernel_slugs_must_be_at_least_five_characters() {
    assert!(kaggle::kernels::validate_kernel_slug("abcde").is_ok());
    assert!(kaggle::kernels::validate_kernel_slug("abcd").is_err());
}

#[test]
fn pulled_code_lands_under_the_right_name() {
    // A local metadata file wins, unless it still holds the placeholder.
    assert_eq!(
        pull_code_file_name(true, Some("analysis.py".to_string()), Some("my-kernel.ipynb".to_string())),
        "analysis.py"
    );
    assert_eq!(
        pull_code_file_name(
            true,
            Some("INSERT_CODE_FILE_PATH_HERE".to_string()),
            Some("my-kernel.ipynb".to_string()),
        ),
        "script.py"
    );
    // Without one, the pulled kernel names itself.
    assert_eq!(
        pull_code_file_name(false, None, Some("my-kernel.ipynb".to_string())),
        "my-kernel.ipynb"
    );
    assert_eq!(pull_code_file_name(false, None, None), "script.py");
}

fn kernel_metadata() -> Metadata {
    Metadata {
        title: "My Test Kernel".to_string(),
        subtitle: None,
        description: String::new(),
        id: "alice/my-test-kernel".to_string(),
        id_no: None,
        code_file: Some("kernel.py".to_string()),
        language: Some(PushLanguageType::Python),
        kernel_type: Some(PushKernelType::Script),
        is_private: Some(true),
        enable_gpu: None,
        enable_internet: None,
        collaborators: vec![],
        licenses: vec![],
        resources: vec![],
        keywords: vec![],
        kernel_sources: vec![],
        dataset_sources: vec![],
        competition_sources: vec![],
        data: None,
    }
}

#[test]
fn slugs_resolve_to_their_titles() {
    assert!(kernel_slug_matches_title("my-test-string-1-1", "My Test String!!!1!1"));
    assert!(kernel_slug_matches_title("My-Test-Kernel", "My Test Kernel"));
    assert!(!kernel_slug_matches_title("some-other-slug", "My Test Kernel"));
}

#[test]
fn a_valid_kernel_push_carries_the_metadata_over() {
    let req = build_kernel_push_request("bob", kernel_metadata(), "print(1)".to_string(), true)
        .unwrap();
    assert_eq!(req.text(), "print(1)");
    assert_eq!(req.new_title().unwrap(), "My Test Kernel");
    assert_eq!(req.slug().unwrap(), "alice/my-test-kernel");
    assert_eq!(req.language(), Some(&PushLanguageType::Python));
    assert_eq!(req.kernel_type(), Some(&PushKernelType::Script));
    assert_eq!(req.is_private(), Some(&true));
}

#[test]
fn notebook_rmarkdown_is_pushed_as_r() {
    let mut m = kernel_metadata();
    m.kernel_type = Some(PushKernelType::Notebook);
    m.language = Some(PushLanguageType::Rmarkdown);
    let req = build_kernel_push_request("bob", m, "---".to_string(), true).unwrap();
    assert_eq!(req.language(), Some(&PushLanguageType::R));
    assert_eq!(req.kernel_type(), Some(&PushKernelType::Notebook));
}

#[test]
fn kernel_push_rejects_each_local_violation() {
    let mut m = kernel_metadata();
    m.title = "Four".to_string();
    assert!(build_kernel_push_request("bob", m, String::new(), true).is_err());

    let mut m = kernel_metadata();
    m.code_file = None;
    assert!(build_kernel_push_request("bob", m, String::new(), true).is_err());

    let m = kernel_metadata();
    assert!(matches!(
        build_kernel_push_request("bob", m, String::new(), false).unwrap_err(),
        KaggleError::Metadata { .. }
    ));

    let mut m = kernel_metadata();
    m.id = "alice/unrelated-slug".to_string();
    assert!(build_kernel_push_request("bob", m, String::new(), true).is_err());

    let mut m = kernel_metadata();
    m.dataset_sources = vec!["no-owner".to_string()];
    assert!(build_kernel_push_request("bob", m, String::new(), true).is_err());

    let mut m = kernel_metadata();
    m.kernel_sources = vec!["alice/abc".to_string()];
    assert!(build_kernel_push_request("bob", m, String::new(), true).is_err());
}

//! Data models exchanged with the remote API: request bodies, response
//! bodies and the metadata description of a local artifact.

pub mod collaborator;
pub use self::collaborator::Collaborator;
pub mod dataset_column;
pub use self::dataset_column::DatasetColumn;
pub mod dataset_new_request;
pub use self::dataset_new_request::{DatasetNew, DatasetNewRequest, DatasetNewRequestBuilder};
pub mod dataset_new_version_request;
pub use self::dataset_new_version_request::DatasetNewVersionRequest;
pub mod dataset_update_settings_request;
pub use self::dataset_update_settings_request::DatasetUpdateSettingsRequest;
pub mod dataset_upload_file;
pub use self::dataset_upload_file::DatasetUploadFile;
pub mod error;
pub use self::error::Error;
pub mod license;
pub use self::license::License;
pub mod kernel_push_request;
pub use self::kernel_push_request::KernelPushRequest;
pub mod extended;
pub mod metadata;

//! Response bodies returned by the remote API. Timestamps ride through as
//! the RFC 3339 text the wire carries, and open-ended response objects ride
//! through as raw JSON text; the serialization boundary outside the library
//! converts both.

use vstd::prelude::*;

use crate::models::DatasetColumn;
use crate::query::{Language, PushKernelType};
use crate::strutil::str_eq;

verus! {

/// A tag attached to a dataset or competition.
#[derive(Debug, Clone)]
pub struct Tag {
    pub ref_: String,
    pub competition_count: i64,
    pub dataset_count: i64,
    pub description: Option<String>,
    pub full_path: String,
    pub is_automatic: bool,
    pub name: String,
    pub script_count: i64,
    pub total_count: i64,
}

/// One published version of a dataset.
#[derive(Debug, Clone)]
pub struct DatasetVersion {
    pub version_number: i64,
    pub creation_date: String,
    pub creator_name: String,
    pub creator_ref: String,
    pub version_notes: String,
    pub status: String,
}

/// The upload ticket for one file: a token to reference the upload later,
/// and the URL to send the bytes to.
#[derive(Debug)]
pub struct FileUploadInfo {
    pub token: String,
    pub create_url: String,
}

impl Clone for FileUploadInfo {
    /// An exact copy of the ticket.
    fn clone(&self) -> (r: Self)
        ensures
            r == *self,
    {
        FileUploadInfo { token: self.token.clone(), create_url: self.create_url.clone() }
    }
}

/// The response to publishing a new dataset version, kept as raw JSON text.
#[derive(Debug, Clone)]
pub struct DatasetNewVersionResponse {
    pub body: String,
}

/// The response to creating a dataset.
#[derive(Debug, Clone)]
pub struct DatasetNewResponse {
    /// If an error occurred, this is None
    pub ref_: Option<String>,
    pub url: String,
    pub status: String,
    pub error: Option<String>,
}

impl DatasetNewResponse {
    /// Whether the server reported success.
    pub fn is_success(&self) -> (r: bool)
        ensures
            r == (self.status@ == "ok"@),
    {
        str_eq(self.status.as_str(), "ok")
    }

    /// Whether the server reported an error.
    pub fn is_error(&self) -> (r: bool)
        ensures
            r == (self.status@ == "error"@),
    {
        str_eq(self.status.as_str(), "error")
    }

    /// The server's error message, when it reported one.
    pub fn cause(&self) -> (r: Option<&String>)
        ensures
            match r {
                Some(v) => self.error == Some(*v),
                None => self.error is None,
            },
    {
        self.error.as_ref()
    }
}

/// The files of one dataset, or an error message.
#[derive(Debug, Clone)]
pub struct ListFilesResult {
    pub error_message: Option<String>,
    pub dataset_files: Vec<DatasetFile>,
}

/// One file of a published dataset.
#[derive(Debug, Clone)]
pub struct DatasetFile {
    pub ref_: String,
    pub creation_date: String,
    pub dataset_ref: String,
    pub description: Option<String>,
    pub file_type: String,
    pub name: String,
    pub owner_ref: String,
    pub total_bytes: i64,
    pub url: String,
    pub columns: Vec<DatasetColumn>,
}

/// One entry of a competition leaderboard.
#[derive(Debug, Clone)]
pub struct Submission {
    pub team_id: i64,
    pub team_name: String,
    pub submission_date: String,
    pub score: String,
}

/// A competition leaderboard.
#[derive(Debug, Clone)]
pub struct LeaderBoard {
    pub submissions: Vec<Submission>,
}

/// The response to a competition submission, kept as raw JSON text.
#[derive(Debug, Clone)]
pub struct SubmitResult {
    pub body: String,
}

/// The response to pulling a kernel: its metadata and its source blob.
#[derive(Debug, Clone)]
pub struct KernelPullResponse {
    pub metadata: KernelMetadata,
    pub blob: KernelBlob,
}

impl KernelPullResponse {
    /// The file extension the pulled code should be stored under, when the
    /// service defines one for the kernel's type and language.
    pub fn code_file_extension(&self) -> (r: Option<&'static str>)
        ensures
            match r {
                Some(e) => crate::query::spec_file_extension(
                    self.blob.kernel_type,
                    self.blob.language,
                ) == Some(e@),
                None => crate::query::spec_file_extension(
                    self.blob.kernel_type,
                    self.blob.language,
                ) is None,
            },
    {
        self.blob.kernel_type.file_extension(&self.blob.language)
    }

    /// The file name the pulled code should be stored under: the kernel's
    /// slug with the type- and language-specific extension.
    pub fn code_file_name(&self) -> (r: Option<String>)
        ensures
            match r {
                Some(name) => exists|e: Seq<char>|
                    crate::query::spec_file_extension(self.blob.kernel_type, self.blob.language)
                        == Some(e) && name@ == self.blob.slug@ + e,
                None => crate::query::spec_file_extension(
                    self.blob.kernel_type,
                    self.blob.language,
                ) is None,
            },
    {
        match self.blob.kernel_type.file_extension(&self.blob.language) {
            Some(ext) => {
                let name = self.blob.slug.clone().concat(ext);
                Some(name)
            },
            None => None,
        }
    }
}

/// A pulled kernel's metadata.
#[derive(Debug, Clone)]
pub struct KernelMetadata {
    pub id: i64,
    pub ref_: String,
    pub title: String,
    pub author: String,
    pub slug: String,
    pub last_run_time: Option<String>,
    pub language: Option<Language>,
    pub kernel_type: Option<PushKernelType>,
    pub is_private: Option<bool>,
    pub enable_gpu: Option<bool>,
    pub enable_internet: Option<bool>,
    pub category_ids: Vec<String>,
    pub dataset_data_sources: Vec<String>,
    pub kernel_data_sources: Vec<String>,
    pub competition_data_sources: Vec<String>,
    pub total_votes: i64,
}

/// A pulled kernel's source code and identity.
#[derive(Debug, Clone)]
pub struct KernelBlob {
    pub kernel_type: PushKernelType,
    pub language: Language,
    pub slug: String,
    pub source: String,
}

/// The response to pushing a kernel, kept as raw JSON text.
#[derive(Debug, Clone)]
pub struct KernelPushResponse {
    pub body: String,
}

/// The output of a kernel run: its files and its log.
#[derive(Debug, Clone)]
pub struct KernelOutput {
    pub files: Vec<KernelOutputFile>,
    pub log: Option<String>,
}

/// One output file of a kernel run.
#[derive(Debug, Clone)]
pub struct KernelOutputFile {
    pub file_name: String,
    pub url: DownloadResponse,
}

/// The downloaded content of one output file.
#[derive(Debug, Clone)]
pub struct DownloadResponse {
    pub content: String,
}

} // verus!

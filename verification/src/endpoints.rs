//! The endpoint paths of the remote API, built exactly as the transport
//! sends them. Each builder returns the path that is then resolved against
//! the client's base URL.

use vstd::prelude::*;

use crate::strutil::{dec_str, int_dec_str, i64_to_string, u64_to_string};

verus! {

/// The path listing competitions.
pub fn competitions_list_path() -> (r: String)
    ensures
        r@ == "competitions/list"@,
{
    let mut s = String::new();
    s.append("competitions/list");
    s
}

/// The path downloading a competition's leaderboard as a zip file.
pub fn competition_leaderboard_download_path(id: &str) -> (r: String)
    ensures
        r@ == "competitions/"@ + id@ + "/leaderboard/download"@,
{
    let mut s = String::new();
    s.append("competitions/");
    s.append(id);
    s.append("/leaderboard/download");
    proof {
        assert(s@ =~= "competitions/"@ + id@ + "/leaderboard/download"@);
    }
    s
}

/// The path viewing a competition's leaderboard.
pub fn competition_leaderboard_view_path(id: &str) -> (r: String)
    ensures
        r@ == "competitions/"@ + id@ + "/leaderboard/view"@,
{
    let mut s = String::new();
    s.append("competitions/");
    s.append(id);
    s.append("/leaderboard/view");
    proof {
        assert(s@ =~= "competitions/"@ + id@ + "/leaderboard/view"@);
    }
    s
}

/// The path downloading one data file of a competition.
pub fn competition_data_download_file_path(id: &str, file_name: &str) -> (r: String)
    ensures
        r@ == "/competitions/data/download/"@ + id@ + "/"@ + file_name@,
{
    let mut s = String::new();
    s.append("/competitions/data/download/");
    s.append(id);
    s.append("/");
    s.append(file_name);
    proof {
        assert(s@ =~= "/competitions/data/download/"@ + id@ + "/"@ + file_name@);
    }
    s
}

/// The path downloading all data files of a competition.
pub fn competition_data_download_all_path(id: &str) -> (r: String)
    ensures
        r@ == "/competitions/data/download-all/"@ + id@,
{
    let mut s = String::new();
    s.append("/competitions/data/download-all/");
    s.append(id);
    proof {
        assert(s@ =~= "/competitions/data/download-all/"@ + id@);
    }
    s
}

/// The path listing the data files of a competition.
pub fn competition_data_list_path(id: &str) -> (r: String)
    ensures
        r@ == "/competitions/data/list/"@ + id@,
{
    let mut s = String::new();
    s.append("/competitions/data/list/");
    s.append(id);
    proof {
        assert(s@ =~= "/competitions/data/list/"@ + id@);
    }
    s
}

/// The path listing a competition's submissions.
pub fn competition_submissions_list_path(id: &str) -> (r: String)
    ensures
        r@ == "/competitions/submissions/list/"@ + id@,
{
    let mut s = String::new();
    s.append("/competitions/submissions/list/");
    s.append(id);
    proof {
        assert(s@ =~= "/competitions/submissions/list/"@ + id@);
    }
    s
}

/// The path submitting an uploaded file to a competition.
pub fn competition_submissions_submit_path(id: &str) -> (r: String)
    ensures
        r@ == "/competitions/submissions/submit/"@ + id@,
{
    let mut s = String::new();
    s.append("/competitions/submissions/submit/");
    s.append(id);
    proof {
        assert(s@ =~= "/competitions/submissions/submit/"@ + id@);
    }
    s
}

/// The legacy multipart upload path for a competition submission, derived
/// from the guid, content length and last-modified time extracted out of the
/// ticket's URL.
pub fn competition_submissions_upload_path(
    guid: &str,
    content_length: u64,
    last_modified: u64,
) -> (r: String)
    ensures
        r@ == "/competitions/submissions/upload/"@ + guid@ + "/"@ + dec_str(content_length as nat)
            + "/"@ + dec_str(last_modified as nat),
{
    let mut s = String::new();
    s.append("/competitions/submissions/upload/");
    s.append(guid);
    s.append("/");
    let len_str = u64_to_string(content_length);
    s.append(len_str.as_str());
    s.append("/");
    let time_str = u64_to_string(last_modified);
    s.append(time_str.as_str());
    proof {
        assert(s@ =~= "/competitions/submissions/upload/"@ + guid@ + "/"@ + dec_str(
            content_length as nat,
        ) + "/"@ + dec_str(last_modified as nat));
    }
    s
}

/// The path requesting an upload ticket for a competition submission file.
pub fn competition_submissions_url_path(
    id: &str,
    content_length: u64,
    last_modified: u64,
) -> (r: String)
    ensures
        r@ == "/competitions/"@ + id@ + "/submissions/url/"@ + dec_str(content_length as nat)
            + "/"@ + dec_str(last_modified as nat),
{
    let mut s = String::new();
    s.append("/competitions/");
    s.append(id);
    s.append("/submissions/url/");
    let len_str = u64_to_string(content_length);
    s.append(len_str.as_str());
    s.append("/");
    let time_str = u64_to_string(last_modified);
    s.append(time_str.as_str());
    proof {
        assert(s@ =~= "/competitions/"@ + id@ + "/submissions/url/"@ + dec_str(
            content_length as nat,
        ) + "/"@ + dec_str(last_modified as nat));
    }
    s
}

/// The path creating a new dataset.
pub fn datasets_create_new_path() -> (r: String)
    ensures
        r@ == "/datasets/create/new"@,
{
    let mut s = String::new();
    s.append("/datasets/create/new");
    s
}

/// The path creating a new version of a dataset named by owner and slug.
pub fn datasets_create_version_path(owner_slug: &str, dataset_slug: &str) -> (r: String)
    ensures
        r@ == "/datasets/create/version/"@ + owner_slug@ + "/"@ + dataset_slug@,
{
    let mut s = String::new();
    s.append("/datasets/create/version/");
    s.append(owner_slug);
    s.append("/");
    s.append(dataset_slug);
    proof {
        assert(s@ =~= "/datasets/create/version/"@ + owner_slug@ + "/"@ + dataset_slug@);
    }
    s
}

/// The path creating a new version of a dataset named by numeric id.
pub fn datasets_create_version_by_id_path(id: i32) -> (r: String)
    ensures
        r@ == "/datasets/create/version/"@ + int_dec_str(id as int),
{
    let mut s = String::new();
    s.append("/datasets/create/version/");
    let id_str = i64_to_string(id as i64);
    s.append(id_str.as_str());
    proof {
        assert(s@ =~= "/datasets/create/version/"@ + int_dec_str(id as int));
    }
    s
}

/// The path downloading all files of a dataset.
pub fn datasets_download_path(owner_slug: &str, dataset_slug: &str) -> (r: String)
    ensures
        r@ == "/datasets/download/"@ + owner_slug@ + "/"@ + dataset_slug@,
{
    let mut s = String::new();
    s.append("/datasets/download/");
    s.append(owner_slug);
    s.append("/");
    s.append(dataset_slug);
    proof {
        assert(s@ =~= "/datasets/download/"@ + owner_slug@ + "/"@ + dataset_slug@);
    }
    s
}

/// The path downloading one file of a dataset.
pub fn datasets_download_file_path(
    owner_slug: &str,
    dataset_slug: &str,
    file_name: &str,
) -> (r: String)
    ensures
        r@ == "/datasets/download/"@ + owner_slug@ + "/"@ + dataset_slug@ + "/"@ + file_name@,
{
    let mut s = String::new();
    s.append("/datasets/download/");
    s.append(owner_slug);
    s.append("/");
    s.append(dataset_slug);
    s.append("/");
    s.append(file_name);
    proof {
        assert(s@ =~= "/datasets/download/"@ + owner_slug@ + "/"@ + dataset_slug@ + "/"@
            + file_name@);
    }
    s
}

/// The path listing datasets.
pub fn datasets_list_path() -> (r: String)
    ensures
        r@ == "datasets/list"@,
{
    let mut s = String::new();
    s.append("datasets/list");
    s
}

/// The path listing the files of a dataset.
pub fn datasets_list_files_path(owner_slug: &str, dataset_slug: &str) -> (r: String)
    ensures
        r@ == "datasets/list/"@ + owner_slug@ + "/"@ + dataset_slug@,
{
    let mut s = String::new();
    s.append("datasets/list/");
    s.append(owner_slug);
    s.append("/");
    s.append(dataset_slug);
    proof {
        assert(s@ =~= "datasets/list/"@ + owner_slug@ + "/"@ + dataset_slug@);
    }
    s
}

/// The path reporting a dataset's creation status.
pub fn datasets_status_path(owner_slug: &str, dataset_slug: &str) -> (r: String)
    ensures
        r@ == "datasets/status/"@ + owner_slug@ + "/"@ + dataset_slug@,
{
    let mut s = String::new();
    s.append("datasets/status/");
    s.append(owner_slug);
    s.append("/");
    s.append(dataset_slug);
    proof {
        assert(s@ =~= "datasets/status/"@ + owner_slug@ + "/"@ + dataset_slug@);
    }
    s
}

/// The path requesting an upload ticket for a dataset file of the given
/// length and last-modified time.
pub fn datasets_upload_file_path(content_length: u64, last_modified: u64) -> (r: String)
    ensures
        r@ == "datasets/upload/file/"@ + dec_str(content_length as nat) + "/"@ + dec_str(
            last_modified as nat,
        ),
{
    let mut s = String::new();
    s.append("datasets/upload/file/");
    let len_str = u64_to_string(content_length);
    s.append(len_str.as_str());
    s.append("/");
    let time_str = u64_to_string(last_modified);
    s.append(time_str.as_str());
    proof {
        assert(s@ =~= "datasets/upload/file/"@ + dec_str(content_length as nat) + "/"@ + dec_str(
            last_modified as nat,
        ));
    }
    s
}

/// The path viewing a dataset.
pub fn datasets_view_path(owner_slug: &str, dataset_slug: &str) -> (r: String)
    ensures
        r@ == "datasets/view/"@ + owner_slug@ + "/"@ + dataset_slug@,
{
    let mut s = String::new();
    s.append("datasets/view/");
    s.append(owner_slug);
    s.append("/");
    s.append(dataset_slug);
    proof {
        assert(s@ =~= "datasets/view/"@ + owner_slug@ + "/"@ + dataset_slug@);
    }
    s
}

/// The path reading or updating a dataset's metadata.
pub fn datasets_metadata_path(owner_slug: &str, dataset_slug: &str) -> (r: String)
    ensures
        r@ == "datasets/metadata/"@ + owner_slug@ + "/"@ + dataset_slug@,
{
    let mut s = String::new();
    s.append("datasets/metadata/");
    s.append(owner_slug);
    s.append("/");
    s.append(dataset_slug);
    proof {
        assert(s@ =~= "datasets/metadata/"@ + owner_slug@ + "/"@ + dataset_slug@);
    }
    s
}

/// The path retrieving the output of a kernel.
pub fn kernel_output_path(owner_slug: &str, kernel_slug: &str) -> (r: String)
    ensures
        r@ == "kernels/output?userName="@ + owner_slug@ + "&kernelSlug="@ + kernel_slug@,
{
    let mut s = String::new();
    s.append("kernels/output?userName=");
    s.append(owner_slug);
    s.append("&kernelSlug=");
    s.append(kernel_slug);
    proof {
        assert(s@ =~= "kernels/output?userName="@ + owner_slug@ + "&kernelSlug="@ + kernel_slug@);
    }
    s
}

/// The path pulling the latest code of a kernel.
pub fn kernel_pull_path(owner_slug: &str, kernel_slug: &str) -> (r: String)
    ensures
        r@ == "kernels/pull?userName="@ + owner_slug@ + "&kernelSlug="@ + kernel_slug@,
{
    let mut s = String::new();
    s.append("kernels/pull?userName=");
    s.append(owner_slug);
    s.append("&kernelSlug=");
    s.append(kernel_slug);
    proof {
        assert(s@ =~= "kernels/pull?userName="@ + owner_slug@ + "&kernelSlug="@ + kernel_slug@);
    }
    s
}

/// The path pushing a kernel version.
pub fn kernels_push_path() -> (r: String)
    ensures
        r@ == "/kernels/push"@,
{
    let mut s = String::new();
    s.append("/kernels/push");
    s
}

/// The path reporting a kernel's status.
pub fn kernel_status_path(owner_slug: &str, kernel_slug: &str) -> (r: String)
    ensures
        r@ == "kernels/status?userName="@ + owner_slug@ + "&kernelSlug="@ + kernel_slug@,
{
    let mut s = String::new();
    s.append("kernels/status?userName=");
    s.append(owner_slug);
    s.append("&kernelSlug=");
    s.append(kernel_slug);
    proof {
        assert(s@ =~= "kernels/status?userName="@ + owner_slug@ + "&kernelSlug="@ + kernel_slug@);
    }
    s
}

/// The path listing kernels.
pub fn kernels_list_path() -> (r: String)
    ensures
        r@ == "kernels/list"@,
{
    let mut s = String::new();
    s.append("kernels/list");
    s
}

} // verus!

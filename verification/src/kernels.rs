//! Validating a kernel's metadata and assembling the push request. The
//! kernel's slug must resolve to its title's URL-safe slug, computed by the
//! slug crate.

use vstd::prelude::*;

use crate::client::spec_parse_identifier;
use crate::error::KaggleError;
use crate::models::metadata::{kernel_string_ok, Metadata};
use crate::models::KernelPushRequest;
use crate::query::{PushKernelType, PushLanguageType};
use crate::strutil::{ascii_lower, has_char, lower_chars, str_eq};

verus! {

/// The URL-safe slug of a string: lower-case letters, digits and single
/// dashes, never leading or trailing.
pub uninterp spec fn slug_of(s: Seq<char>) -> Seq<char>;

/// Relies on slug::slugify: the ascii slug of a string, a function of its
/// characters alone.
#[verifier::external_body]
fn slugify(s: &str) -> (r: String)
    ensures
        r@ == slug_of(s@),
{
    slug::slugify(s)
}

/// Whether a kernel slug resolves to a title: folded to lower case, the slug
/// must equal the title's URL-safe slug.
pub open spec fn slug_resolves_to_title(kernel_slug: Seq<char>, title: Seq<char>) -> bool {
    lower_chars(kernel_slug) == slug_of(title)
}

/// Check that a kernel slug resolves to a title.
pub fn kernel_slug_matches_title(kernel_slug: &str, title: &str) -> (r: bool)
    ensures
        r == slug_resolves_to_title(kernel_slug@, title@),
{
    let lowered = ascii_lower(kernel_slug);
    let expected = slugify(title);
    str_eq(lowered.as_str(), expected.as_str())
}

/// Every rule a kernel push enforces before any network call: a title of at
/// least five characters, well-formed dataset and kernel source identifiers,
/// a declared source file that exists on disk, and an identifier whose slug
/// resolves to the title.
pub open spec fn kernel_push_ok(
    user: Seq<char>,
    m: Metadata,
    code_file_exists: bool,
) -> bool {
    &&& m.title@.len() >= 5
    &&& forall|i: int| 0 <= i < m.dataset_sources@.len() ==> has_char(
        #[trigger] m.dataset_sources@[i]@,
        '/',
    )
    &&& forall|i: int| 0 <= i < m.kernel_sources@.len() ==> kernel_string_ok(
        #[trigger] m.kernel_sources@[i]@,
    )
    &&& m.code_file is Some
    &&& code_file_exists
    &&& spec_parse_identifier(user, m.id@) matches Some(p) && slug_resolves_to_title(
        p.1,
        m.title@,
    )
}

/// The language the push request carries: a notebook declared as R Markdown
/// is pushed as R, everything else keeps its declared language.
pub open spec fn spec_push_language(m: Metadata) -> Option<PushLanguageType> {
    if m.kernel_type == Some(PushKernelType::Notebook) && m.language == Some(
        PushLanguageType::Rmarkdown,
    ) {
        Some(PushLanguageType::R)
    } else {
        m.language
    }
}

/// Whether a push request is exactly the one the metadata and the prepared
/// source text induce.
pub open spec fn push_request_matches(req: KernelPushRequest, m: Metadata, text: Seq<char>) -> bool {
    &&& req.text@ == text
    &&& req.new_title == Some(m.title)
    &&& req.slug == Some(m.id)
    &&& req.id == m.id_no
    &&& req.dataset_data_sources matches Some(d) && d@ == m.dataset_sources@
    &&& req.competition_data_sources matches Some(c) && c@ == m.competition_sources@
    &&& req.kernel_data_sources matches Some(k) && k@ == m.kernel_sources@
    &&& req.category_ids matches Some(c) && c@ == m.keywords@
    &&& req.language == spec_push_language(m)
    &&& req.kernel_type == m.kernel_type
    &&& req.enable_gpu == m.enable_gpu
    &&& req.enable_internet == m.enable_internet
    &&& req.is_private == m.is_private
}

/// Check that a kernel slug is at least five characters, as the output and
/// pull endpoints require.
pub fn validate_kernel_slug(kernel_slug: &str) -> (r: Result<(), KaggleError>)
    ensures
        r is Ok <==> kernel_slug@.len() >= 5,
        r matches Err(e) ==> e is Metadata,
{
    if kernel_slug.unicode_len() < 5 {
        let mut msg = String::new();
        msg.append("Kernel slug `");
        msg.append(kernel_slug);
        msg.append("` must be at least five characters.");
        Err(KaggleError::Metadata { msg })
    } else {
        Ok(())
    }
}

/// The file name a pulled kernel's code is stored under: the locally
/// configured code file when a metadata file already exists beside it —
/// unless it still holds the template placeholder — otherwise the name the
/// pulled kernel derives from its slug and language, and `script.py` when
/// neither says anything.
pub open spec fn spec_pull_code_file_name(
    has_local_metadata: bool,
    local_code_file: Option<Seq<char>>,
    pulled_name: Option<Seq<char>>,
) -> Seq<char> {
    let chosen = if has_local_metadata {
        match local_code_file {
            Some(f) => if f == "INSERT_CODE_FILE_PATH_HERE"@ {
                None
            } else {
                Some(f)
            },
            None => None,
        }
    } else {
        pulled_name
    };
    match chosen {
        Some(f) => f,
        None => "script.py"@,
    }
}

/// Choose the file name a pulled kernel's code is stored under.
pub fn pull_code_file_name(
    has_local_metadata: bool,
    local_code_file: Option<String>,
    pulled_name: Option<String>,
) -> (r: String)
    ensures
        r@ == spec_pull_code_file_name(
            has_local_metadata,
            match local_code_file {
                Some(f) => Some(f@),
                None => None,
            },
            match pulled_name {
                Some(f) => Some(f@),
                None => None,
            },
        ),
{
    let chosen = if has_local_metadata {
        match local_code_file {
            Some(f) => {
                if str_eq(f.as_str(), "INSERT_CODE_FILE_PATH_HERE") {
                    None
                } else {
                    Some(f)
                }
            },
            None => None,
        }
    } else {
        pulled_name
    };
    match chosen {
        Some(f) => f,
        None => "script.py".to_owned(),
    }
}

/// Validate a kernel's metadata and assemble the push request around the
/// prepared source text. `code_file_exists` reports whether the declared
/// source file was found on disk. Every violation is a local error surfaced
/// before any network call.
pub fn build_kernel_push_request(
    username: &str,
    m: Metadata,
    text: String,
    code_file_exists: bool,
) -> (r: Result<KernelPushRequest, KaggleError>)
    ensures
        r is Ok <==> kernel_push_ok(username@, m, code_file_exists),
        r matches Ok(req) ==> push_request_matches(req, m, text@),
        r matches Err(e) ==> e is Metadata,
{
    if m.title.as_str().unicode_len() < 5 {
        return Err(KaggleError::meta("Title must be at least five characters"));
    }
    match m.is_dataset_sources_valid() {
        Ok(_) => {},
        Err(e) => {
            return Err(e);
        },
    }
    match m.is_kernel_sources_valid() {
        Ok(_) => {},
        Err(e) => {
            return Err(e);
        },
    }
    let code_path = match &m.code_file {
        Some(p) => p,
        None => {
            return Err(KaggleError::meta("A source file must be specified in the metadata"));
        },
    };
    if !code_file_exists {
        let mut msg = String::new();
        msg.append("Source file not found:");
        msg.append(code_path.as_str());
        return Err(KaggleError::Metadata { msg });
    }
    let kernel_slug = match crate::client::parse_identifier(username, m.id.as_str()) {
        Ok(pair) => pair.1,
        Err(e) => {
            return Err(e);
        },
    };
    if !kernel_slug_matches_title(kernel_slug, m.title.as_str()) {
        return Err(KaggleError::meta("kernel title does not resolve to the specified id"));
    }
    let language = if matches!(m.kernel_type, Some(PushKernelType::Notebook)) && matches!(
        m.language,
        Some(PushLanguageType::Rmarkdown),
    ) {
        Some(PushLanguageType::R)
    } else {
        m.language
    };
    let request = KernelPushRequest {
        id: m.id_no,
        slug: Some(m.id),
        new_title: Some(m.title),
        text,
        language,
        kernel_type: m.kernel_type,
        is_private: m.is_private,
        enable_gpu: m.enable_gpu,
        enable_internet: m.enable_internet,
        dataset_data_sources: Some(m.dataset_sources),
        competition_data_sources: Some(m.competition_sources),
        kernel_data_sources: Some(m.kernel_sources),
        category_ids: Some(m.keywords),
    };
    Ok(request)
}

} // verus!

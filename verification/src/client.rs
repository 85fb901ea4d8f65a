//! The client's identity and configuration, identifier parsing, the
//! authorization header, URL resolution, and the choice of metadata file.

use vstd::prelude::*;

use crate::error::KaggleError;
use crate::strutil::index_of_char;

verus! {

/// The client-side state the publication pipeline needs: who is
/// authenticated, where the API lives, and where downloads are stored. The
/// HTTP connection itself lives outside the library.
#[derive(Debug, Clone)]
pub struct KaggleApiClient {
    /// The authenticated user's name, the implied owner of single-segment
    /// identifiers.
    pub username: String,
    /// Base url to the kaggle api, `https://www.kaggle.com/api/v1/`
    pub base_url: String,
    /// Default location to store downloads
    pub download_dir: String,
}

/// A placeholder for responses whose body the caller does not inspect.
pub struct ApiResp;

/// The owner/slug pair an identifier parses to: a single segment pairs the
/// authenticated user with that segment, two segments stand for themselves,
/// and three or more segments are malformed.
pub open spec fn spec_parse_identifier(user: Seq<char>, id: Seq<char>) -> Option<
    (Seq<char>, Seq<char>),
> {
    let i = index_of_char(id, '/');
    if i == -1 {
        Some((user, id))
    } else {
        let rest = id.subrange(i + 1, id.len() as int);
        if index_of_char(rest, '/') == -1 {
            Some((id.take(i), rest))
        } else {
            None
        }
    }
}

/// Split an identifier into its owner and slug: `owner/slug` stands for
/// itself, a bare `slug` belongs to the given user, and anything with more
/// segments is rejected.
pub fn parse_identifier<'a>(current_user: &'a str, id: &'a str) -> (r: Result<
    (&'a str, &'a str),
    KaggleError,
>)
    ensures
        match r {
            Ok(pair) => spec_parse_identifier(current_user@, id@) == Some((pair.0@, pair.1@)),
            Err(e) => spec_parse_identifier(current_user@, id@) is None && e is Metadata,
        },
{
    let n = id.unicode_len();
    match crate::strutil::find_char(id, '/') {
        None => Ok((current_user, id)),
        Some(i) => {
            let rest = id.substring_char(i + 1, n);
            proof {
                assert(rest@ =~= id@.subrange(i + 1, id@.len() as int));
            }
            match crate::strutil::find_char(rest, '/') {
                None => {
                    let owner = id.substring_char(0, i);
                    proof {
                        assert(owner@ =~= id@.take(i as int));
                    }
                    Ok((owner, rest))
                },
                Some(_) => {
                    let mut msg = String::new();
                    msg.append(
                        "Invalid identifier string. expected form `{username}/{identifier-slug}`, but got ",
                    );
                    msg.append(id);
                    Err(KaggleError::Metadata { msg })
                },
            }
        },
    }
}

impl KaggleApiClient {
    /// A client for the given user, API base URL and download directory.
    pub fn new(username: String, base_url: String, download_dir: String) -> (r: Self)
        ensures
            r.username == username,
            r.base_url == base_url,
            r.download_dir == download_dir,
    {
        KaggleApiClient { username, base_url, download_dir }
    }

    /// The directory where downloads are stored.
    pub fn download_dir(&self) -> (r: &String)
        ensures
            r == &self.download_dir,
    {
        &self.download_dir
    }

    /// Determine if a dataset string is valid, meaning it is in the format
    /// of `{username}/{identifier-slug}`, defaulting the owner to the
    /// authenticated user when the string is a bare slug.
    pub fn get_user_and_identifier_slug<'a>(&'a self, id: &'a str) -> (r: Result<
        (&'a str, &'a str),
        KaggleError,
    >)
        ensures
            match r {
                Ok(pair) => spec_parse_identifier(self.username@, id@) == Some(
                    (pair.0@, pair.1@),
                ),
                Err(e) => spec_parse_identifier(self.username@, id@) is None && e is Metadata,
            },
    {
        parse_identifier(self.username.as_str(), id)
    }

    /// Where a downloaded competition leaderboard is stored: inside a target
    /// directory under `<id>-leaderboard.zip`, at a target file directly, or
    /// under the same name in the download directory when no target is
    /// given.
    pub fn leaderboard_output_path(&self, id: &str, target: Option<&str>, target_is_dir: bool)
        -> (r: String)
        ensures
            match target {
                Some(t) => {
                    if target_is_dir {
                        r@ == t@ + "/"@ + id@ + "-leaderboard.zip"@
                    } else {
                        r@ == t@
                    }
                },
                None => r@ == self.download_dir@ + "/"@ + id@ + "-leaderboard.zip"@,
            },
    {
        match target {
            Some(t) => {
                if target_is_dir {
                    let mut s = t.to_owned();
                    s.append("/");
                    s.append(id);
                    s.append("-leaderboard.zip");
                    proof {
                        assert(s@ =~= t@ + "/"@ + id@ + "-leaderboard.zip"@);
                    }
                    s
                } else {
                    t.to_owned()
                }
            },
            None => {
                let mut s = self.download_dir.clone();
                s.append("/");
                s.append(id);
                s.append("-leaderboard.zip");
                proof {
                    assert(s@ =~= self.download_dir@ + "/"@ + id@ + "-leaderboard.zip"@);
                }
                s
            },
        }
    }

    /// Where a competition's downloaded data goes: the given target, or
    /// `<id>.zip` in the download directory.
    pub fn competition_download_output_path(&self, id: &str, target: Option<&str>) -> (r: String)
        ensures
            match target {
                Some(t) => r@ == t@,
                None => r@ == self.download_dir@ + "/"@ + id@ + ".zip"@,
            },
    {
        match target {
            Some(t) => t.to_owned(),
            None => {
                let mut s = self.download_dir.clone();
                s.append("/");
                s.append(id);
                s.append(".zip");
                proof {
                    assert(s@ =~= self.download_dir@ + "/"@ + id@ + ".zip"@);
                }
                s
            },
        }
    }

    /// The default folder a dataset's files are downloaded into.
    pub fn dataset_download_folder(&self, owner_slug: &str, dataset_slug: &str) -> (r: String)
        ensures
            r@ == self.download_dir@ + "/datasets/"@ + owner_slug@ + "/"@ + dataset_slug@,
    {
        let mut s = self.download_dir.clone();
        s.append("/datasets/");
        s.append(owner_slug);
        s.append("/");
        s.append(dataset_slug);
        proof {
            assert(s@ =~= self.download_dir@ + "/datasets/"@ + owner_slug@ + "/"@ + dataset_slug@);
        }
        s
    }

    /// Resolve an endpoint path against the client's base URL.
    pub fn join_url(&self, path: &str) -> (r: Option<String>)
        ensures
            match r {
                Some(u) => joined_url(self.base_url@, path@) == Some(u@),
                None => joined_url(self.base_url@, path@) is None,
            },
    {
        url_join(self.base_url.as_str(), path)
    }
}

/// The URL a path resolves to against a base URL, RFC 3986 reference
/// resolution; nothing when the base does not parse or the join fails.
pub uninterp spec fn joined_url(base: Seq<char>, path: Seq<char>) -> Option<Seq<char>>;

/// Relies on url::Url::parse and url::Url::join: RFC 3986 reference
/// resolution of a path against a base URL, a function of the two strings
/// alone.
#[verifier::external_body]
fn url_join(base: &str, path: &str) -> (r: Option<String>)
    ensures
        match r {
            Some(u) => joined_url(base@, path@) == Some(u@),
            None => joined_url(base@, path@) is None,
        },
{
    match url::Url::parse(base) {
        Ok(b) => match b.join(path) {
            Ok(u) => Some(String::from(u)),
            Err(_) => None,
        },
        Err(_) => None,
    }
}

/// The padded standard-alphabet base64 encoding of a byte sequence.
pub uninterp spec fn base64_standard(bytes: Seq<u8>) -> Seq<char>;

/// Relies on base64's STANDARD engine: the padded standard-alphabet
/// encoding, a function of the bytes alone.
#[verifier::external_body]
fn b64_encode(bytes: &Vec<u8>) -> (r: String)
    ensures
        r@ == base64_standard(bytes@),
{
    base64::Engine::encode(&base64::engine::general_purpose::STANDARD, bytes)
}

/// The bytes whose base64 encoding forms a basic-auth credential: the
/// username and key in UTF-8, joined by a colon.
pub open spec fn basic_auth_payload(username: Seq<char>, key: Seq<char>) -> Seq<u8> {
    vstd::utf8::encode_utf8(username) + seq![58u8] + vstd::utf8::encode_utf8(key)
}

/// The value of the authorization header for the given credentials:
/// `Basic ` followed by the base64 of `username:key`.
pub fn basic_auth_header(username: &str, key: &str) -> (r: String)
    ensures
        r@ == "Basic "@ + base64_standard(basic_auth_payload(username@, key@)),
{
    let mut payload = username.as_bytes_vec();
    payload.push(58u8);
    let mut key_bytes = key.as_bytes_vec();
    payload.append(&mut key_bytes);
    proof {
        assert(payload@ =~= basic_auth_payload(username@, key@));
    }
    let encoded = b64_encode(&payload);
    let mut out = String::new();
    out.append("Basic ");
    let out = out.concat(encoded.as_str());
    assert(out@ =~= "Basic "@ + base64_standard(basic_auth_payload(username@, key@)));
    out
}

/// Where the metadata description of a dataset is looked for, given what the
/// file system shows: inside a directory the canonical file is preferred and
/// the legacy file accepted in its place, while a direct path must simply
/// exist.
pub open spec fn spec_dataset_metadata_path(
    path: Seq<char>,
    is_dir: bool,
    canonical_exists: bool,
    legacy_exists: bool,
    path_itself_exists: bool,
) -> Result<Seq<char>, Seq<char>> {
    if is_dir {
        if canonical_exists {
            Ok(path + "/dataset-metadata.json"@)
        } else if legacy_exists {
            Ok(path + "/datapackage.json"@)
        } else {
            Err(path + "/dataset-metadata.json"@)
        }
    } else if path_itself_exists {
        Ok(path)
    } else {
        Err(path)
    }
}

/// Choose the dataset metadata file for a target path. The flags report what
/// the file system shows: whether the path is a directory, whether the
/// canonical and legacy metadata files exist inside it, and whether the path
/// itself exists. A missing file is a `FileNotFound` error naming the
/// canonical location.
pub fn dataset_metadata_path(
    path: &str,
    is_dir: bool,
    canonical_exists: bool,
    legacy_exists: bool,
    path_itself_exists: bool,
) -> (r: Result<String, KaggleError>)
    ensures
        match r {
            Ok(p) => spec_dataset_metadata_path(
                path@,
                is_dir,
                canonical_exists,
                legacy_exists,
                path_itself_exists,
            ) == Ok::<_, Seq<char>>(p@),
            Err(e) => e matches KaggleError::FileNotFound(p) && spec_dataset_metadata_path(
                path@,
                is_dir,
                canonical_exists,
                legacy_exists,
                path_itself_exists,
            ) == Err::<Seq<char>, _>(p@),
        },
{
    if is_dir {
        let mut p = path.to_owned();
        if canonical_exists {
            p.append("/dataset-metadata.json");
            Ok(p)
        } else if legacy_exists {
            p.append("/datapackage.json");
            Ok(p)
        } else {
            p.append("/dataset-metadata.json");
            Err(KaggleError::FileNotFound(p))
        }
    } else if path_itself_exists {
        Ok(path.to_owned())
    } else {
        Err(KaggleError::FileNotFound(path.to_owned()))
    }
}

/// Where the metadata description of a kernel is looked for: inside a
/// directory only the canonical file counts, while a direct path must simply
/// exist.
pub open spec fn spec_kernel_metadata_path(
    path: Seq<char>,
    is_dir: bool,
    canonical_exists: bool,
    path_itself_exists: bool,
) -> Result<Seq<char>, Seq<char>> {
    if is_dir {
        if canonical_exists {
            Ok(path + "/kernel-metadata.json"@)
        } else {
            Err(path + "/kernel-metadata.json"@)
        }
    } else if path_itself_exists {
        Ok(path)
    } else {
        Err(path)
    }
}

/// Choose the kernel metadata file for a target path, from what the file
/// system shows.
pub fn kernel_metadata_path(
    path: &str,
    is_dir: bool,
    canonical_exists: bool,
    path_itself_exists: bool,
) -> (r: Result<String, KaggleError>)
    ensures
        match r {
            Ok(p) => spec_kernel_metadata_path(path@, is_dir, canonical_exists, path_itself_exists)
                == Ok::<_, Seq<char>>(p@),
            Err(e) => e matches KaggleError::FileNotFound(p) && spec_kernel_metadata_path(
                path@,
                is_dir,
                canonical_exists,
                path_itself_exists,
            ) == Err::<Seq<char>, _>(p@),
        },
{
    if is_dir {
        let mut p = path.to_owned();
        p.append("/kernel-metadata.json");
        if canonical_exists {
            Ok(p)
        } else {
            Err(KaggleError::FileNotFound(p))
        }
    } else if path_itself_exists {
        Ok(path.to_owned())
    } else {
        Err(KaggleError::FileNotFound(path.to_owned()))
    }
}

/// How the client authenticates: environment variables, a configuration
/// file, or credentials given directly. Reading the environment or the file
/// happens outside the library.
#[derive(Debug, Clone)]
pub enum Authentication {
    /// Get the credentials from `KAGGLE_USERNAME` and `KAGGLE_KEY` env
    /// variables.
    Env,
    /// Where the `kaggle.json` file is stored.
    ///
    /// Default location is `~/.kaggle/kaggle.json` and on windows
    /// `C:\Users\<Windows-username>\.kaggle\kaggle.json`
    ConfigFile { path: Option<String> },
    /// Use dedicated credentials for authentication.
    Credentials { user_name: String, key: String },
}

impl Authentication {
    /// Use dedicated credentials.
    pub fn with_credentials(user_name: &str, key: &str) -> (r: Self)
        ensures
            r matches Authentication::Credentials { user_name: u, key: k } && u@ == user_name@
                && k@ == key@,
    {
        Authentication::Credentials { user_name: user_name.to_owned(), key: key.to_owned() }
    }

    /// Use credentials from a dedicated location.
    pub fn with_config_file(path: &str) -> (r: Self)
        ensures
            r matches Authentication::ConfigFile { path: Some(p) } && p@ == path@,
    {
        Authentication::ConfigFile { path: Some(path.to_owned()) }
    }
}

impl Default for Authentication {
    /// Credentials come from the configuration file at its default location
    /// unless told otherwise.
    fn default() -> (r: Self)
        ensures
            r matches Authentication::ConfigFile { path: p } && p is None,
    {
        Authentication::ConfigFile { path: None }
    }
}

} // verus!

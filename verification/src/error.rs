//! The error taxonomy: local validation and file-lookup errors, and the
//! mapping from HTTP status codes to transport errors.

use vstd::prelude::*;

use crate::strutil::parsed_u64;
use crate::strutil::parse_u64;
use crate::strutil::u64_to_string;

verus! {

/// An error reported by the remote API, classified by status code.
#[derive(Debug, Clone)]
pub enum ApiError {
    /// The request was rejected for lack of valid credentials; never retried.
    Unauthorized,
    /// The caller is rate limited; carries the parsed `Retry-After` header
    /// value in seconds when one was present and numeric.
    RateLimited(Option<u64>),
    /// Any other non-success status code.
    Other(u16),
    /// A structured error body that the server sent beside a failing status.
    ServerError(crate::models::Error),
}

/// A status code in the range the transport treats as success.
pub open spec fn spec_status_is_success(status: u16) -> bool {
    200 <= status < 300
}

/// Whether a status code counts as success.
pub fn status_is_success(status: u16) -> (r: bool)
    ensures
        r == spec_status_is_success(status),
{
    200 <= status && status < 300
}

/// The transport error for a failing status code, given the raw
/// `Retry-After` header value when one accompanied the response.
pub open spec fn spec_map_status(status: u16, retry_after: Option<Seq<char>>) -> ApiError {
    if status == 401 {
        ApiError::Unauthorized
    } else if status == 429 {
        match retry_after {
            Some(h) => ApiError::RateLimited(parsed_u64(h)),
            None => ApiError::RateLimited(None),
        }
    } else {
        ApiError::Other(status)
    }
}

/// Classify a failing status code into the error taxonomy.
pub fn map_status(status: u16, retry_after: Option<&str>) -> (r: ApiError)
    ensures
        r == spec_map_status(
            status,
            match retry_after {
                Some(h) => Some(h@),
                None => None,
            },
        ),
{
    if status == 401 {
        ApiError::Unauthorized
    } else if status == 429 {
        match retry_after {
            Some(h) => ApiError::RateLimited(parse_u64(h)),
            None => ApiError::RateLimited(None),
        }
    } else {
        ApiError::Other(status)
    }
}

impl ApiError {
    /// A human-readable description of the error.
    pub fn message(&self) -> (r: String)
        ensures
            match self {
                ApiError::Unauthorized => r@ == "Unauthorized request to API"@,
                ApiError::RateLimited(_) => r@ == "Kaggle API rate limit exceeded"@,
                ApiError::Other(s) => r@ == "Kaggle API reported error code "@ + crate::strutil::dec_str(
                    *s as nat,
                ),
                ApiError::ServerError(err) => match err.message {
                    Some(m) => r@ == m@,
                    None => r@ == "unknown server error"@,
                },
            },
    {
        match self {
            ApiError::Unauthorized => {
                let mut s = String::new();
                s.append("Unauthorized request to API");
                s
            },
            ApiError::RateLimited(_) => {
                let mut s = String::new();
                s.append("Kaggle API rate limit exceeded");
                s
            },
            ApiError::Other(code) => {
                let mut s = String::new();
                s.append("Kaggle API reported error code ");
                let num = u64_to_string(*code as u64);
                s.concat(num.as_str())
            },
            ApiError::ServerError(err) => err.text(),
        }
    }
}

/// Every failure the library reports: a missing local file, a metadata
/// validation error, or a transport error from the remote API.
#[derive(Debug, Clone)]
pub enum KaggleError {
    /// A referenced local file or metadata file does not exist; carries the
    /// offending path.
    FileNotFound(String),
    /// A local, pre-network validation failure, reported verbatim.
    Metadata { msg: String },
    /// A transport or API error.
    Api { err: ApiError },
}

impl KaggleError {
    /// Wrap a message as a metadata validation error.
    pub fn meta(msg: &str) -> (r: Self)
        ensures
            r matches KaggleError::Metadata { msg: m } && m@ == msg@,
    {
        KaggleError::Metadata { msg: msg.to_owned() }
    }

    /// A human-readable description of the error.
    pub fn message(&self) -> (r: String)
        ensures
            match self {
                KaggleError::FileNotFound(p) => r@ == "File not found "@ + p@,
                KaggleError::Metadata { msg } => r@ == "Metadata error: "@ + msg@,
                KaggleError::Api { err } => match err {
                    ApiError::Unauthorized => r@ == "Unauthorized request to API"@,
                    ApiError::RateLimited(_) => r@ == "Kaggle API rate limit exceeded"@,
                    ApiError::Other(s) => r@ == "Kaggle API reported error code "@
                        + crate::strutil::dec_str(*s as nat),
                    ApiError::ServerError(e) => match e.message {
                        Some(m) => r@ == m@,
                        None => r@ == "unknown server error"@,
                    },
                },
            },
    {
        match self {
            KaggleError::FileNotFound(p) => {
                let mut s = String::new();
                s.append("File not found ");
                s.concat(p.as_str())
            },
            KaggleError::Metadata { msg } => {
                let mut s = String::new();
                s.append("Metadata error: ");
                s.concat(msg.as_str())
            },
            KaggleError::Api { err } => err.message(),
        }
    }
}

} // verus!

//! Upload tickets and the branch between the two upload mechanisms: a direct
//! PUT to the ticket's URL, or the legacy multipart endpoint derived from a
//! triple encoded in the URL's trailing path segments.

use vstd::prelude::*;

use crate::error::KaggleError;
use crate::strutil::{parse_u64, parsed_u64, rindex_of_char_before};

verus! {

/// What the pipeline reads out of a ticket response object, whatever its
/// shape: whether the legacy completion marker key was present, and the
/// token and creation URL fields when they were. The response is decoded
/// into this value once, at the deserialization boundary, and never
/// re-inspected downstream.
#[derive(Debug, Clone)]
pub struct TicketFields {
    /// Whether the response object carried the `isComplete` key that marks
    /// the legacy upload path.
    pub has_is_complete: bool,
    /// The `token` field, when present as a string.
    pub token: Option<String>,
    /// The `createUrl` field, when present as a string.
    pub create_url: Option<String>,
}

/// Where and how a file's bytes are sent.
#[derive(Debug, Clone)]
pub enum UploadTarget {
    /// Stream the raw bytes via PUT to the ticket's URL.
    Direct { url: String },
    /// POST the file as a multipart part to the endpoint derived from the
    /// guid, content length and last-modified time encoded in the ticket
    /// URL's trailing path segments.
    Legacy { guid: String, content_length: u64, last_modified: u64 },
}

/// The three trailing `/`-separated segments of a URL, in path order, when
/// the URL has at least three segments: for a URL of the form
/// `.../{guid}/{contentLength}/{lastModified}` this is the guid and the two
/// numbers' digit strings.
pub open spec fn spec_legacy_triple(url: Seq<char>) -> Option<
    (Seq<char>, Seq<char>, Seq<char>),
> {
    let j1 = rindex_of_char_before(url, '/', url.len() as int);
    if j1 == -1 {
        None
    } else {
        let j2 = rindex_of_char_before(url, '/', j1);
        if j2 == -1 {
            None
        } else {
            let j3 = rindex_of_char_before(url, '/', j2);
            Some(
                (
                    url.subrange(j3 + 1, j2),
                    url.subrange(j2 + 1, j1),
                    url.subrange(j1 + 1, url.len() as int),
                ),
            )
        }
    }
}

/// Extract the guid, content length and last-modified time from a legacy
/// ticket URL of the form `.../{guid}/{contentLength}/{lastModified}`.
pub fn parse_legacy_url(url: &str) -> (r: Result<(String, u64, u64), KaggleError>)
    ensures
        match r {
            Ok(t) => spec_legacy_triple(url@) matches Some(parts) && t.0@ == parts.0 && parsed_u64(
                parts.1,
            ) == Some(t.1) && parsed_u64(parts.2) == Some(t.2),
            Err(e) => e is Metadata && match spec_legacy_triple(url@) {
                Some(parts) => parsed_u64(parts.1) is None || parsed_u64(parts.2) is None,
                None => true,
            },
        },
{
    let n = url.unicode_len();
    let j1 = match crate::strutil::rfind_char_before(url, '/', n) {
        Some(j) => j,
        None => {
            return Err(incomplete_segments_error(url));
        },
    };
    let j2 = match crate::strutil::rfind_char_before(url, '/', j1) {
        Some(j) => j,
        None => {
            return Err(incomplete_segments_error(url));
        },
    };
    let guid_start = match crate::strutil::rfind_char_before(url, '/', j2) {
        Some(j) => j + 1,
        None => 0,
    };
    let guid = url.substring_char(guid_start, j2);
    let len_text = url.substring_char(j2 + 1, j1);
    let time_text = url.substring_char(j1 + 1, n);
    proof {
        assert(guid@ =~= spec_legacy_triple(url@)->Some_0.0);
        assert(len_text@ =~= spec_legacy_triple(url@)->Some_0.1);
        assert(time_text@ =~= spec_legacy_triple(url@)->Some_0.2);
    }
    let content_length = match parse_u64(len_text) {
        Some(v) => v,
        None => {
            return Err(bad_segment_number_error(url));
        },
    };
    let last_modified = match parse_u64(time_text) {
        Some(v) => v,
        None => {
            return Err(bad_segment_number_error(url));
        },
    };
    Ok((guid.to_owned(), content_length, last_modified))
}

/// The error reported when a legacy ticket URL has fewer than three path
/// segments.
fn incomplete_segments_error(url: &str) -> (r: KaggleError)
    ensures
        r is Metadata,
{
    let mut msg = String::new();
    msg.append("createUrl response with incomplete segments ");
    msg.append(url);
    KaggleError::Metadata { msg }
}

/// The error reported when a trailing segment of a legacy ticket URL is not
/// an unsigned number.
fn bad_segment_number_error(url: &str) -> (r: KaggleError)
    ensures
        r is Metadata,
{
    let mut msg = String::new();
    msg.append("createUrl segment is not an unsigned number in ");
    msg.append(url);
    KaggleError::Metadata { msg }
}

/// Whether a ticket routes to the legacy multipart path: exactly when the
/// response carried the completion marker key.
pub open spec fn routes_to_legacy(ticket: TicketFields) -> bool {
    ticket.has_is_complete
}

/// Decide, once per file, how the bytes are uploaded: a ticket carrying the
/// completion marker key routes to the legacy multipart path with the triple
/// parsed out of its URL, and any other ticket routes to a direct PUT of the
/// URL. A ticket without a URL, and a legacy URL whose trailing segments do
/// not parse, are rejected.
pub fn decide_upload_target(ticket: &TicketFields) -> (r: Result<UploadTarget, KaggleError>)
    ensures
        match r {
            Ok(t) => match t {
                UploadTarget::Direct { url } => {
                    &&& !routes_to_legacy(*ticket)
                    &&& ticket.create_url matches Some(u) && url@ == u@
                },
                UploadTarget::Legacy { guid, content_length, last_modified } => {
                    &&& routes_to_legacy(*ticket)
                    &&& ticket.create_url matches Some(u) && (spec_legacy_triple(u@) matches Some(
                        parts,
                    ) && guid@ == parts.0 && parsed_u64(parts.1) == Some(content_length)
                        && parsed_u64(parts.2) == Some(last_modified))
                },
            },
            Err(e) => {
                &&& e is Metadata
                &&& (ticket.create_url is None || (routes_to_legacy(*ticket)
                    && (ticket.create_url matches Some(u) && match spec_legacy_triple(u@) {
                    Some(parts) => parsed_u64(parts.1) is None || parsed_u64(parts.2) is None,
                    None => true,
                })))
            },
        },
{
    let url = match &ticket.create_url {
        Some(u) => u,
        None => {
            let mut msg = String::new();
            msg.append("Missing `createUrl` field");
            return Err(KaggleError::Metadata { msg });
        },
    };
    if ticket.has_is_complete {
        match parse_legacy_url(url.as_str()) {
            Ok(t) => Ok(
                UploadTarget::Legacy { guid: t.0, content_length: t.1, last_modified: t.2 },
            ),
            Err(e) => Err(e),
        }
    } else {
        Ok(UploadTarget::Direct { url: url.clone() })
    }
}

} // verus!

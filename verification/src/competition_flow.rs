//! The competition submission flow: request an upload URL, branch on the
//! response's shape between the legacy multipart path and a direct PUT, and
//! submit the resulting upload token with a message. Once the URL request
//! succeeds the flow runs to completion or failure, with no compensating
//! action.

use vstd::prelude::*;

use crate::error::KaggleError;
use crate::strutil::parsed_u64;
use crate::ticket::{routes_to_legacy, spec_legacy_triple, TicketFields, UploadTarget};

verus! {

/// Where the flow stands.
#[derive(Debug, Clone, PartialEq, Eq, Structural)]
pub enum CompetitionPhase {
    /// The upload URL has been asked for and its response is awaited.
    AwaitingTicket,
    /// The file's bytes are being sent over the legacy multipart path; the
    /// upload token will come from the upload response.
    AwaitingLegacyUpload,
    /// The file's bytes are being sent via direct PUT; the upload token came
    /// from the ticket itself.
    AwaitingDirectUpload,
    /// The submission has been handed out; the flow is finished.
    Submitted,
}

/// What the driver of a competition submission must do next.
#[derive(Debug)]
pub enum CompetitionStep {
    /// POST the file's name, size and modified time to the competition's
    /// submission-URL endpoint, then report the decoded response.
    RequestUrl { file_name: String, content_length: u64, last_modified: u64 },
    /// Send the file's bytes as the target says, then report the `token`
    /// field of the upload response, if any.
    Upload { target: UploadTarget },
    /// POST this token and message to the competition's submit endpoint. The
    /// response is the flow's result.
    Submit { token: String, message: String },
}

/// One competition submission, driven step by step: a URL request, one
/// upload over whichever path the response's shape selects, and one submit
/// call carrying the upload token.
#[derive(Debug)]
pub struct CompetitionSubmitFlow {
    /// The competition being submitted to.
    pub competition: String,
    /// The human-readable submission message.
    pub message: String,
    /// The name of the file being submitted.
    pub file_name: String,
    /// The file's size in bytes.
    pub content_length: u64,
    /// The file's last-modified time, in epoch seconds.
    pub last_modified: u64,
    /// The upload token the ticket itself carried, kept for the direct path.
    pub ticket_token: Option<String>,
    /// Where the flow stands.
    pub phase: CompetitionPhase,
}

impl CompetitionSubmitFlow {
    /// Start a submission: the first step asks the competition's
    /// submission-URL endpoint for an upload ticket.
    pub fn start(
        competition: &str,
        file_name: &str,
        content_length: u64,
        last_modified: u64,
        message: &str,
    ) -> (r: (CompetitionSubmitFlow, CompetitionStep))
        ensures
            r.0.competition@ == competition@,
            r.0.message@ == message@,
            r.0.file_name@ == file_name@,
            r.0.content_length == content_length,
            r.0.last_modified == last_modified,
            r.0.ticket_token is None,
            r.0.phase == CompetitionPhase::AwaitingTicket,
            r.1 matches CompetitionStep::RequestUrl {
                file_name: f,
                content_length: c,
                last_modified: l,
            } && f@ == file_name@ && c == content_length && l == last_modified,
    {
        let flow = CompetitionSubmitFlow {
            competition: competition.to_owned(),
            message: message.to_owned(),
            file_name: file_name.to_owned(),
            content_length,
            last_modified,
            ticket_token: None,
            phase: CompetitionPhase::AwaitingTicket,
        };
        let step = CompetitionStep::RequestUrl {
            file_name: file_name.to_owned(),
            content_length,
            last_modified,
        };
        (flow, step)
    }

    /// Branch on the decoded ticket: the completion marker key routes to the
    /// legacy multipart path with the triple parsed out of the URL, its
    /// absence to a direct PUT whose token the ticket already carries. The
    /// branch is decided here, once, and never re-inspected.
    pub fn on_ticket(&mut self, ticket: TicketFields) -> (r: Result<CompetitionStep, KaggleError>)
        requires
            old(self).phase == CompetitionPhase::AwaitingTicket,
        ensures
            final(self).competition == old(self).competition,
            final(self).message == old(self).message,
            final(self).file_name == old(self).file_name,
            final(self).content_length == old(self).content_length,
            final(self).last_modified == old(self).last_modified,
            r matches Ok(step) ==> (step matches CompetitionStep::Upload { target } && match target {
                UploadTarget::Direct { url } => {
                    &&& !routes_to_legacy(ticket)
                    &&& ticket.create_url matches Some(u) && url@ == u@
                    &&& final(self).phase == CompetitionPhase::AwaitingDirectUpload
                    &&& final(self).ticket_token == ticket.token
                },
                UploadTarget::Legacy { guid, content_length, last_modified } => {
                    &&& routes_to_legacy(ticket)
                    &&& ticket.create_url matches Some(u) && (spec_legacy_triple(u@) matches Some(
                        parts,
                    ) && guid@ == parts.0 && parsed_u64(parts.1) == Some(content_length)
                        && parsed_u64(parts.2) == Some(last_modified))
                    &&& final(self).phase == CompetitionPhase::AwaitingLegacyUpload
                },
            }),
            r matches Err(e) ==> {
                &&& e is Metadata
                &&& final(self).phase == old(self).phase
                &&& (ticket.create_url is None || (routes_to_legacy(ticket)
                    && (ticket.create_url matches Some(u) && match spec_legacy_triple(u@) {
                    Some(parts) => parsed_u64(parts.1) is None || parsed_u64(parts.2) is None,
                    None => true,
                })))
            },
    {
        let target = match crate::ticket::decide_upload_target(&ticket) {
            Ok(t) => t,
            Err(e) => {
                return Err(e);
            },
        };
        match &target {
            UploadTarget::Direct { .. } => {
                self.ticket_token = ticket.token;
                self.phase = CompetitionPhase::AwaitingDirectUpload;
            },
            UploadTarget::Legacy { .. } => {
                self.phase = CompetitionPhase::AwaitingLegacyUpload;
            },
        }
        Ok(CompetitionStep::Upload { target })
    }

    /// Take the upload's outcome and hand out the final submit call. Over
    /// the legacy path the token comes from the upload response; over the
    /// direct path it came from the ticket. A submission without a token
    /// fails here.
    pub fn on_uploaded(&mut self, upload_token: Option<String>) -> (r: Result<
        CompetitionStep,
        KaggleError,
    >)
        requires
            old(self).phase == CompetitionPhase::AwaitingLegacyUpload || old(self).phase
                == CompetitionPhase::AwaitingDirectUpload,
        ensures
            final(self).competition == old(self).competition,
            final(self).message == old(self).message,
            r is Ok <==> (old(self).phase == CompetitionPhase::AwaitingLegacyUpload
                && upload_token is Some) || (old(self).phase
                == CompetitionPhase::AwaitingDirectUpload && old(self).ticket_token is Some),
            r matches Ok(step) ==> {
                &&& final(self).phase == CompetitionPhase::Submitted
                &&& (step matches CompetitionStep::Submit { token, message } && {
                    &&& message@ == old(self).message@
                    &&& (old(self).phase == CompetitionPhase::AwaitingLegacyUpload
                        ==> upload_token == Some(token))
                    &&& (old(self).phase == CompetitionPhase::AwaitingDirectUpload ==> (old(
                        self,
                    ).ticket_token matches Some(t) && token@ == t@))
                })
            },
            r matches Err(e) ==> e is Metadata && final(self).phase == old(self).phase,
    {
        let token = if matches!(self.phase, CompetitionPhase::AwaitingLegacyUpload) {
            match upload_token {
                Some(t) => t,
                None => {
                    return Err(KaggleError::meta("Missing upload token"));
                },
            }
        } else {
            match &self.ticket_token {
                Some(t) => t.clone(),
                None => {
                    return Err(KaggleError::meta("Missing upload token"));
                },
            }
        };
        self.phase = CompetitionPhase::Submitted;
        Ok(CompetitionStep::Submit { token, message: self.message.clone() })
    }
}

} // verus!

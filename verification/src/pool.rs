use crate::digest::{digest_hex, Digest};
use crate::mining::WorkerMessage;
use vstd::prelude::*;

verus! {

/// A unit of work from the coordinator. It is never changed once received:
/// the next template replaces it whole.
#[derive(Clone, Copy, Debug, PartialEq, Eq)]
pub struct TemplateResponse {
    pub id: Digest,
    pub kernel_auth_path: [Digest; 2],
    pub header_auth_path: [Digest; 3],
    pub threshold: Digest,
}

/// A found nonce as it is reported to the coordinator.
#[derive(Clone, Debug, PartialEq, Eq)]
pub struct WorkRequest {
    pub id: String,
    pub nonce: String,
    pub address: String,
}

/// The coordinator's verdict on one reported nonce.
#[derive(Clone, Debug, PartialEq, Eq)]
pub struct WorkResponse {
    pub success: bool,
    pub error: Option<String>,
}

/// Why an exchange with the coordinator produced no usable answer. Each
/// variant carries a description of the underlying fault.
#[derive(Clone, Debug, PartialEq, Eq)]
pub enum Failure {
    /// The coordinator could not be reached, or the exchange broke off.
    Transport(String),
    /// The coordinator answered, but the body could not be decoded.
    Decode(String),
}

/// What became of one reported nonce. No outcome is retried.
#[derive(Clone, Debug, PartialEq, Eq)]
pub enum SubmissionOutcome {
    /// The coordinator accepted the work.
    Accepted,
    /// The coordinator refused the work, for the reason it gave, if any.
    Rejected(Option<String>),
    /// No verdict was obtained.
    Failed(Failure),
}

/// The remote coordinator, as the miner knows it: where it is, and the
/// address that accepted work is credited to.
#[derive(Clone, Debug)]
pub struct Pool {
    url: String,
    address: String,
}

/// The event to publish after a template fetch: the fetched template, or the
/// absence of work when the fetch failed in any way.
pub open spec fn published(fetched: Result<TemplateResponse, Failure>) -> WorkerMessage {
    match fetched {
        Ok(template) => WorkerMessage::NewTemplate(Some(template)),
        Err(_) => WorkerMessage::NewTemplate(None),
    }
}

/// Turns the result of a template fetch into the event for the workers. A
/// failed fetch makes them idle rather than mine on stale data.
pub fn template_update(fetched: Result<TemplateResponse, Failure>) -> (result: WorkerMessage)
    ensures
        result == published(fetched),
{
    match fetched {
        Ok(template) => WorkerMessage::NewTemplate(Some(template)),
        Err(_) => WorkerMessage::NewTemplate(None),
    }
}

/// Classifies the reply to one submission.
pub fn submission_outcome(reply: Result<WorkResponse, Failure>) -> (result: SubmissionOutcome)
    ensures
        result == (match reply {
            Ok(response) => if response.success {
                SubmissionOutcome::Accepted
            } else {
                SubmissionOutcome::Rejected(response.error)
            },
            Err(failure) => SubmissionOutcome::Failed(failure),
        }),
{
    match reply {
        Ok(response) => {
            if response.success {
                SubmissionOutcome::Accepted
            } else {
                SubmissionOutcome::Rejected(response.error)
            }
        },
        Err(failure) => SubmissionOutcome::Failed(failure),
    }
}

impl Pool {
    /// The coordinator's base URL.
    pub closed spec fn url(&self) -> Seq<char> {
        self.url@
    }

    /// The address that accepted work is credited to.
    pub closed spec fn address(&self) -> Seq<char> {
        self.address@
    }

    pub fn new(url: String, address: String) -> (result: Self)
        ensures
            result.url() == url@,
            result.address() == address@,
    {
        Pool { url, address }
    }

    /// Where templates are fetched from.
    pub fn template_endpoint(&self) -> (result: String)
        ensures
            result@ == self.url() + "/template"@,
    {
        self.url.clone().concat("/template")
    }

    /// Where found nonces are reported to.
    pub fn submit_endpoint(&self) -> (result: String)
        ensures
            result@ == self.url() + "/submit_work"@,
    {
        self.url.clone().concat("/submit_work")
    }

    /// The report of a found nonce: template and nonce in hexadecimal, and
    /// this pool's address.
    pub fn work_request(&self, template_id: Digest, nonce: Digest) -> (result: WorkRequest)
        ensures
            result.id@ == digest_hex(template_id@),
            result.nonce@ == digest_hex(nonce@),
            result.address@ == self.address(),
    {
        WorkRequest {
            id: template_id.to_hex(),
            nonce: nonce.to_hex(),
            address: self.address.clone(),
        }
    }
}

} // verus!

//! The server's REST surface as seen by the client: endpoint addresses, the
//! connectivity check and the classification of upload responses.
use vstd::prelude::*;
use crate::text::{contains_seq, contains_text, decimal, decimal_string, trim_end_slashes, trim_trailing_slashes};

verus! {

/// HTTP status that the server sends for an asset it already holds.
pub const CONFLICT: u16 = 409;

/// Whether an HTTP status is in the success class `2xx`.
pub open spec fn is_success(status: u16) -> bool {
    200 <= status <= 299
}

/// Whether an HTTP status is in the success class `2xx`.
pub fn is_success_status(status: u16) -> (r: bool)
    ensures
        r == is_success(status),
{
    200 <= status && status <= 299
}

/// The terminal classification of one upload attempt.
#[derive(Clone, Debug, PartialEq, Eq)]
pub enum UploadOutcome {
    Uploaded,
    AlreadyExists,
    /// The attempt failed, for the reason given.
    Failed(String),
}

/// An outcome without its failure reason.
#[derive(Clone, Copy, Debug, PartialEq, Eq, Structural)]
pub enum OutcomeKind {
    Uploaded,
    AlreadyExists,
    Failed,
}

/// The kind of an outcome.
pub open spec fn kind_of(o: UploadOutcome) -> OutcomeKind {
    match o {
        UploadOutcome::Uploaded => OutcomeKind::Uploaded,
        UploadOutcome::AlreadyExists => OutcomeKind::AlreadyExists,
        UploadOutcome::Failed(_) => OutcomeKind::Failed,
    }
}

impl UploadOutcome {
    /// The kind of this outcome.
    pub fn kind(&self) -> (r: OutcomeKind)
        ensures
            r == kind_of(*self),
    {
        match self {
            UploadOutcome::Uploaded => OutcomeKind::Uploaded,
            UploadOutcome::AlreadyExists => OutcomeKind::AlreadyExists,
            UploadOutcome::Failed(_) => OutcomeKind::Failed,
        }
    }

    /// Whether this outcome is a failure.
    pub fn is_failed(&self) -> (r: bool)
        ensures
            r == (kind_of(*self) == OutcomeKind::Failed),
    {
        match self {
            UploadOutcome::Failed(_) => true,
            _ => false,
        }
    }
}

/// Text by which the server says, in an error body, that it holds the asset.
pub const EXISTS_MARKER: &'static str = "already exists";

/// How a response to an upload is classified.
pub open spec fn response_kind(status: u16, body: Seq<char>) -> OutcomeKind {
    if is_success(status) {
        OutcomeKind::Uploaded
    } else if status == CONFLICT || contains_seq(body, EXISTS_MARKER@) {
        OutcomeKind::AlreadyExists
    } else {
        OutcomeKind::Failed
    }
}

/// The reason recorded for a rejected upload.
pub open spec fn rejection_reason(status: u16, body: Seq<char>) -> Seq<char> {
    "Server returned error "@ + decimal(status as nat) + ": "@ + body
}

/// Classifies the server's response to an upload: `2xx` is `Uploaded`; a
/// conflict, or an error body that says the asset already exists, is
/// `AlreadyExists`; anything else is `Failed` with the status and the body.
pub fn classify_response(status: u16, body: &str) -> (r: UploadOutcome)
    ensures
        kind_of(r) == response_kind(status, body@),
        r matches UploadOutcome::Failed(reason) ==> reason@ == rejection_reason(status, body@),
{
    if is_success_status(status) {
        UploadOutcome::Uploaded
    } else if status == CONFLICT || contains_text(body, EXISTS_MARKER) {
        UploadOutcome::AlreadyExists
    } else {
        let mut reason = String::from_str("Server returned error ");
        let code = decimal_string(status as u64);
        reason.append(code.as_str());
        reason.append(": ");
        reason.append(body);
        UploadOutcome::Failed(reason)
    }
}

/// A server that shows an asset as present again, by a conflict status or by
/// an error body saying so, never makes the upload a failure; a second upload
/// of the same file therefore ends as `Uploaded` or `AlreadyExists`.
pub proof fn lemma_duplicate_is_not_failure(status: u16, body: Seq<char>)
    requires
        is_success(status) || status == CONFLICT || contains_seq(body, EXISTS_MARKER@),
    ensures
        response_kind(status, body) == OutcomeKind::Uploaded || response_kind(status, body)
            == OutcomeKind::AlreadyExists,
        !is_success(status) ==> response_kind(status, body) == OutcomeKind::AlreadyExists,
{
}

/// Why the connectivity check failed.
#[derive(Clone, Debug, PartialEq, Eq)]
pub enum PingError {
    /// The server answered with a status outside `2xx`.
    Status(u16),
    /// The server answered `2xx` with a body lacking the expected token.
    UnexpectedBody(String),
}

/// Token that a healthy server's ping answer holds.
pub const PONG: &'static str = "pong";

/// Judges the answer to the connectivity check: it passes only on a `2xx`
/// status with a body that holds `pong`.
pub fn check_ping(status: u16, body: &str) -> (r: Result<(), PingError>)
    ensures
        r is Ok <==> (is_success(status) && contains_seq(body@, PONG@)),
        !is_success(status) ==> r == Err::<(), PingError>(PingError::Status(status)),
        r matches Err(PingError::UnexpectedBody(b)) ==> b@ == body@,
        is_success(status) && !contains_seq(body@, PONG@) ==> r matches Err(
            PingError::UnexpectedBody(_),
        ),
{
    if !is_success_status(status) {
        return Err(PingError::Status(status));
    }
    if !contains_text(body, PONG) {
        return Err(PingError::UnexpectedBody(String::from_str(body)));
    }
    Ok(())
}

/// Path of the connectivity check on the server.
pub const PING_PATH: &'static str = "/api/server/ping";

/// Path of the upload endpoint on the server.
pub const ASSETS_PATH: &'static str = "/api/assets";

/// The server's base address with every trailing `/` removed.
pub fn normalize_server_url(server: &str) -> (r: String)
    ensures
        r@ == trim_trailing_slashes(server@),
{
    trim_end_slashes(server)
}

/// Address of the connectivity check.
pub fn ping_url(server: &str) -> (r: String)
    ensures
        r@ == server@ + PING_PATH@,
{
    let mut r = String::from_str(server);
    r.append(PING_PATH);
    r
}

/// Address of the upload endpoint.
pub fn upload_url(server: &str) -> (r: String)
    ensures
        r@ == server@ + ASSETS_PATH@,
{
    let mut r = String::from_str(server);
    r.append(ASSETS_PATH);
    r
}

} // verus!

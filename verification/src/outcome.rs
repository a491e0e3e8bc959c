//! What one request to an endpoint came to.

use vstd::prelude::*;

verus! {

/// The four classes of result that a request can have.
#[derive(Clone, Copy, Debug, PartialEq, Eq, Structural)]
pub enum OutcomeKind {
    Success,
    ClientError,
    ServerError,
    NetworkFailure,
}

/// The result of one request: its class, the status code where a response
/// arrived, and the text that explains a failure.
#[derive(Debug, PartialEq, Eq)]
pub enum PollOutcome {
    /// A response arrived and its status is no error.
    Success { status: u16 },
    /// A response arrived with a status from 400 to 499.
    ClientError { status: u16, detail: String },
    /// A response arrived with a status from 500 to 599.
    ServerError { status: u16, detail: String },
    /// No response arrived; `detail` is the transport's own description.
    NetworkFailure { detail: String },
}

/// The mathematical value of a [`PollOutcome`].
pub enum OutcomeView {
    Success { status: u16 },
    ClientError { status: u16, detail: Seq<char> },
    ServerError { status: u16, detail: Seq<char> },
    NetworkFailure { detail: Seq<char> },
}

impl View for PollOutcome {
    type V = OutcomeView;

    open spec fn view(&self) -> OutcomeView {
        match self {
            PollOutcome::Success { status } => OutcomeView::Success { status: *status },
            PollOutcome::ClientError { status, detail } => OutcomeView::ClientError {
                status: *status,
                detail: detail@,
            },
            PollOutcome::ServerError { status, detail } => OutcomeView::ServerError {
                status: *status,
                detail: detail@,
            },
            PollOutcome::NetworkFailure { detail } => OutcomeView::NetworkFailure {
                detail: detail@,
            },
        }
    }
}

impl OutcomeView {
    /// The class of the outcome.
    pub open spec fn kind(self) -> OutcomeKind {
        match self {
            OutcomeView::Success { .. } => OutcomeKind::Success,
            OutcomeView::ClientError { .. } => OutcomeKind::ClientError,
            OutcomeView::ServerError { .. } => OutcomeKind::ServerError,
            OutcomeView::NetworkFailure { .. } => OutcomeKind::NetworkFailure,
        }
    }

    /// The status code, where a response arrived.
    pub open spec fn status(self) -> Option<u16> {
        match self {
            OutcomeView::Success { status } => Some(status),
            OutcomeView::ClientError { status, .. } => Some(status),
            OutcomeView::ServerError { status, .. } => Some(status),
            OutcomeView::NetworkFailure { .. } => None,
        }
    }

    /// The explanation of a failure; empty for a success.
    pub open spec fn detail(self) -> Seq<char> {
        match self {
            OutcomeView::Success { .. } => Seq::empty(),
            OutcomeView::ClientError { detail, .. } => detail,
            OutcomeView::ServerError { detail, .. } => detail,
            OutcomeView::NetworkFailure { detail } => detail,
        }
    }
}

/// Whether a status code lies in the client-error range.
pub open spec fn is_client_error_status(status: u16) -> bool {
    400 <= status <= 499
}

/// Whether a status code lies in the server-error range.
pub open spec fn is_server_error_status(status: u16) -> bool {
    500 <= status <= 599
}

/// The class of a response with the given status code.
pub open spec fn kind_of_status(status: u16) -> OutcomeKind {
    if is_server_error_status(status) {
        OutcomeKind::ServerError
    } else if is_client_error_status(status) {
        OutcomeKind::ClientError
    } else {
        OutcomeKind::Success
    }
}

/// The reason phrase that `reqwest::StatusCode::canonical_reason` gives for a
/// status code, or `None` where it gives none or where the number is no
/// status code at all.
pub uninterp spec fn canonical_reason_of(status: u16) -> Option<Seq<char>>;

/// The text of a reason phrase, empty where there is none.
pub open spec fn phrase_text(reason: Option<Seq<char>>) -> Seq<char> {
    match reason {
        Some(phrase) => phrase,
        None => Seq::empty(),
    }
}

/// The outcome of a response with the given status code, where `reason` is
/// the reason phrase registered for that code. The class follows from the
/// code alone; the phrase becomes the detail of an error.
pub open spec fn response_outcome(status: u16, reason: Option<Seq<char>>) -> OutcomeView {
    let detail = phrase_text(reason);
    match kind_of_status(status) {
        OutcomeKind::ServerError => OutcomeView::ServerError { status, detail },
        OutcomeKind::ClientError => OutcomeView::ClientError { status, detail },
        _ => OutcomeView::Success { status },
    }
}

/// The outcome of a response with the given status code.
pub open spec fn outcome_of_status(status: u16) -> OutcomeView {
    response_outcome(status, canonical_reason_of(status))
}

/// The outcome of a request that brought no response.
pub open spec fn outcome_of_failure(detail: Seq<char>) -> OutcomeView {
    OutcomeView::NetworkFailure { detail }
}

/// Calls `reqwest::StatusCode::is_server_error` on the status code with this
/// number. Trusted: the answer is `true` exactly for 500 to 599. A number
/// that `StatusCode::from_u16` refuses (below 100 or above 999) is no server
/// error.
#[verifier::external_body]
fn is_server_error(status: u16) -> (r: bool)
    ensures
        r == is_server_error_status(status),
{
    match reqwest::StatusCode::from_u16(status) {
        Ok(code) => code.is_server_error(),
        Err(_) => false,
    }
}

/// Calls `reqwest::StatusCode::is_client_error` on the status code with this
/// number. Trusted: the answer is `true` exactly for 400 to 499. A number
/// that `StatusCode::from_u16` refuses (below 100 or above 999) is no client
/// error.
#[verifier::external_body]
fn is_client_error(status: u16) -> (r: bool)
    ensures
        r == is_client_error_status(status),
{
    match reqwest::StatusCode::from_u16(status) {
        Ok(code) => code.is_client_error(),
        Err(_) => false,
    }
}

/// Calls `reqwest::StatusCode::canonical_reason` on the status code with this
/// number. Trusted: the phrase depends on the number alone, which is all
/// that [`canonical_reason_of`] says. A number that `StatusCode::from_u16`
/// refuses has no phrase.
#[verifier::external_body]
fn canonical_reason(status: u16) -> (r: Option<String>)
    ensures
        r.deep_view() == canonical_reason_of(status),
{
    match reqwest::StatusCode::from_u16(status) {
        Ok(code) => code.canonical_reason().map(String::from),
        Err(_) => None,
    }
}

impl PollOutcome {
    /// Classifies a response from its status code and the reason phrase
    /// registered for that code.
    pub fn from_response(status: u16, reason: Option<String>) -> (r: PollOutcome)
        ensures
            r@ == response_outcome(status, reason.deep_view()),
    {
        let server: bool = is_server_error(status);
        let client: bool = is_client_error(status);
        if server || client {
            let detail = match reason {
                Some(phrase) => phrase,
                None => String::new(),
            };
            if server {
                PollOutcome::ServerError { status, detail }
            } else {
                PollOutcome::ClientError { status, detail }
            }
        } else {
            PollOutcome::Success { status }
        }
    }

    /// Classifies a response from its status code, with the reason phrase
    /// that the HTTP library registers for it.
    pub fn from_status(status: u16) -> (r: PollOutcome)
        ensures
            r@ == outcome_of_status(status),
    {
        let reason = canonical_reason(status);
        PollOutcome::from_response(status, reason)
    }

    /// The outcome of a request that failed before any response arrived.
    pub fn from_transport_error(detail: String) -> (r: PollOutcome)
        ensures
            r@ == outcome_of_failure(detail@),
    {
        PollOutcome::NetworkFailure { detail }
    }

    /// The class of this outcome.
    pub fn kind(&self) -> (r: OutcomeKind)
        ensures
            r == self@.kind(),
    {
        match self {
            PollOutcome::Success { .. } => OutcomeKind::Success,
            PollOutcome::ClientError { .. } => OutcomeKind::ClientError,
            PollOutcome::ServerError { .. } => OutcomeKind::ServerError,
            PollOutcome::NetworkFailure { .. } => OutcomeKind::NetworkFailure,
        }
    }

    /// The status code, where a response arrived.
    pub fn status(&self) -> (r: Option<u16>)
        ensures
            r == self@.status(),
    {
        match self {
            PollOutcome::Success { status } => Some(*status),
            PollOutcome::ClientError { status, .. } => Some(*status),
            PollOutcome::ServerError { status, .. } => Some(*status),
            PollOutcome::NetworkFailure { .. } => None,
        }
    }

    /// The explanation of a failure; empty for a success.
    pub fn detail(&self) -> (r: String)
        ensures
            r@ == self@.detail(),
    {
        match self {
            PollOutcome::Success { .. } => String::new(),
            PollOutcome::ClientError { detail, .. } => detail.clone(),
            PollOutcome::ServerError { detail, .. } => detail.clone(),
            PollOutcome::NetworkFailure { detail } => detail.clone(),
        }
    }
}

} // verus!

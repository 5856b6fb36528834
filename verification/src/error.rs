//! The user-facing error taxonomy of the coordinator's boundary.
//!
//! Every rejected step surfaces as a structured error body with an
//! HTTP-style status code: malformed input as 400, a missing authorization
//! as 401, and everything that crosses the trust boundary from inside —
//! party failures, disagreement, missing prior state — as an opaque 500
//! whose detail stays in the server-side logs.

use vstd::prelude::*;

use crate::coordinator::StepError;
use crate::node::NodeError;

verus! {

/// Status code of a malformed request.
pub const STATUS_BAD_REQUEST: u16 = 400;

/// Status code of a request without authorization.
pub const STATUS_UNAUTHORIZED: u16 = 401;

/// Status code of a server-side failure; its detail never crosses the
/// trust boundary.
pub const STATUS_INTERNAL_SERVER_ERROR: u16 = 500;

/// An explicit error response: an optional message and the status code it
/// is returned with.
#[derive(Clone, Debug, PartialEq, Eq)]
pub struct ApiError {
    pub message: Option<String>,
    pub code: u16,
}

impl ApiError {
    /// An explicit error response carrying `error` as its message.
    pub fn new(status_code: u16, error: String) -> (r: ApiError)
        ensures
            r.code == status_code,
            r.message == Some(error),
    {
        Self { message: Some(error), code: status_code }
    }
}

/// Everything the user-facing boundary can answer with instead of a
/// success.
#[derive(Clone, Debug, PartialEq, Eq)]
pub enum ApiErrors {
    /// An error built with an explicit status code and message.
    ExplicitError(ApiError),
    /// The caller is not authorized to perform this action.
    Unauthorized,
    /// The caller's input was malformed; the message says how.
    BadRequest(String),
    /// A server-side failure; the message is logged, the caller sees only
    /// the status.
    InternalServerError(String),
}

impl ApiErrors {
    /// The status code, as a spec-level function of the error.
    pub open spec fn status_code_spec(&self) -> u16 {
        match self {
            ApiErrors::ExplicitError(e) => e.code,
            ApiErrors::Unauthorized => STATUS_UNAUTHORIZED,
            ApiErrors::BadRequest(_) => STATUS_BAD_REQUEST,
            ApiErrors::InternalServerError(_) => STATUS_INTERNAL_SERVER_ERROR,
        }
    }

    /// The status code each error is surfaced with.
    pub fn status_code(&self) -> (r: u16)
        ensures
            r == self.status_code_spec(),
    {
        match self {
            ApiErrors::ExplicitError(e) => e.code,
            ApiErrors::Unauthorized => STATUS_UNAUTHORIZED,
            ApiErrors::BadRequest(_) => STATUS_BAD_REQUEST,
            ApiErrors::InternalServerError(_) => STATUS_INTERNAL_SERVER_ERROR,
        }
    }
}

/// How a rejected coordinated step surfaces to the user: always a
/// server-side error, with a message naming which check failed.
pub fn api_error_of_step(e: &StepError) -> (r: ApiErrors)
    ensures
        r is InternalServerError,
        r.status_code_spec() == STATUS_INTERNAL_SERVER_ERROR,
        *e is RemoteError ==> (r matches ApiErrors::InternalServerError(m) && m@
            == "a party call failed"@),
        *e is ConsistencyViolation ==> (r matches ApiErrors::InternalServerError(m) && m@
            == "public outputs differ across parties"@),
        *e is ProofRejected ==> (r matches ApiErrors::InternalServerError(m) && m@
            == "proof verification failed"@),
{
    match e {
        StepError::RemoteError => ApiErrors::InternalServerError(
            String::from_str("a party call failed"),
        ),
        StepError::ConsistencyViolation => ApiErrors::InternalServerError(
            String::from_str("public outputs differ across parties"),
        ),
        StepError::ProofRejected => ApiErrors::InternalServerError(
            String::from_str("proof verification failed"),
        ),
    }
}

/// How a node-side failure surfaces to the remote caller: always a
/// server-side error carrying only the node's opaque status line.
pub fn api_error_of_node(e: &NodeError) -> (r: ApiErrors)
    ensures
        r is InternalServerError,
        *e is PreconditionFailed ==> (r matches ApiErrors::InternalServerError(m) && m@
            == "required prior protocol state is absent"@),
        *e is Internal ==> (r matches ApiErrors::InternalServerError(m) && m@
            == "check logs something broke"@),
{
    ApiErrors::InternalServerError(String::from_str(e.status_message()))
}

} // verus!

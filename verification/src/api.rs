//! The wire-facing shapes of the service: the error body, the response to a
//! single-user presence query, and the mapping from [`PresenceError`] to a
//! status code and body.
//!
//! Serialization itself lives with the web-facing process; the contracts
//! here fix what the body must contain.

use vstd::prelude::*;
use crate::presence::Presence;
use crate::presence::PresenceError;

verus! {

/// The error body of the wire contract: a machine-readable code and a
/// human-readable message.
pub struct Error {
    pub error_code: &'static str,
    pub message: String,
}

impl Error {
    /// The body reported for a malformed request.
    pub fn generic_bad_request(message: String) -> (r: Error)
        ensures
            r.error_code@ == "bad_request"@,
            r.message == message,
    {
        Error { error_code: "bad_request", message }
    }
}

/// A response to a single-user presence query: the current record, or an
/// error body.
pub enum PresenceResponse {
    Found(Presence),
    Failed(Error),
}

/// An error body together with the status code it is served under.
pub struct ErrorResponse {
    pub status: u16,
    pub body: Error,
}

impl ErrorResponse {
    /// The response for a malformed request: a bad-request status with the
    /// generic body.
    pub fn generic_bad_request(message: String) -> (r: ErrorResponse)
        ensures
            r.status == 400,
            r.body.error_code@ == "bad_request"@,
            r.body.message == message,
    {
        ErrorResponse { status: 400, body: Error::generic_bad_request(message) }
    }

    /// The response for a resolution failure: not-found for an untracked
    /// user, bad-request when presence is unavailable, server-error for an
    /// internal fault, each with the error's own code and message.
    pub fn for_presence_error(e: &PresenceError) -> (r: ErrorResponse)
        ensures
            (e matches PresenceError::NotTracked(_)) ==> r.status == 404,
            (e matches PresenceError::PresenceUnavailable(_)) ==> r.status == 400,
            (e matches PresenceError::InternalError(_)) ==> r.status == 500,
            r.body.error_code@ == match e {
                PresenceError::NotTracked(_) => "not_tracked"@,
                PresenceError::PresenceUnavailable(_) => "presence_unavailable"@,
                PresenceError::InternalError(_) => "internal_error"@,
            },
            r.body.message@ == match e {
                PresenceError::NotTracked(_) => "this user is not tracked"@,
                PresenceError::PresenceUnavailable(_) => (
                "presence information is unavailable for this user"@),
                PresenceError::InternalError(_) => "internal protocol error"@,
            },
    {
        let status: u16 = match e {
            PresenceError::NotTracked(_) => 404,
            PresenceError::PresenceUnavailable(_) => 400,
            PresenceError::InternalError(_) => 500,
        };
        ErrorResponse { status, body: Error { error_code: e.code(), message: e.message() } }
    }
}

} // verus!

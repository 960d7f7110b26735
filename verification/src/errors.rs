//! The error taxonomy of the lobby service and its mapping to HTTP
//! status codes.

use vstd::prelude::*;

verus! {

/// How a lobby operation can fail.
///
/// Domain failures (`NotFound`, `Conflict`) are ordinary return values:
/// no operation of this library panics on them.
#[derive(Clone, Copy, Debug, PartialEq, Eq, Structural)]
pub enum LobbyError {
    /// No record exists for the given identifier.
    NotFound,
    /// The operation is not legal in the record's current state.
    Conflict,
    /// The persistence backend reported a fault.
    StorageFailure,
    /// A defensive invariant check failed: the backend reported creating
    /// more than one record for a single request.
    InternalInconsistency,
}

/// The HTTP status code that each failure maps to: 404 for a missing
/// record, 409 for an operation that the record's state forbids, and 500
/// for everything the backend or an invariant check reports.
pub open spec fn spec_http_status(e: LobbyError) -> u16 {
    match e {
        LobbyError::NotFound => 404u16,
        LobbyError::Conflict => 409u16,
        LobbyError::StorageFailure => 500u16,
        LobbyError::InternalInconsistency => 500u16,
    }
}

/// The optional small integer that distinguishes internal-consistency
/// faults in an error body; absent for every other failure.
pub open spec fn spec_error_code(e: LobbyError) -> Option<u8> {
    match e {
        LobbyError::InternalInconsistency => Some(1u8),
        _ => None,
    }
}

impl LobbyError {
    /// The HTTP status code this failure is reported with.
    pub fn http_status(&self) -> (c: u16)
        ensures
            c == spec_http_status(*self),
    {
        match self {
            LobbyError::NotFound => 404,
            LobbyError::Conflict => 409,
            LobbyError::StorageFailure => 500,
            LobbyError::InternalInconsistency => 500,
        }
    }

    /// The machine-readable code attached to the error body, if any.
    pub fn error_code(&self) -> (c: Option<u8>)
        ensures
            c == spec_error_code(*self),
    {
        match self {
            LobbyError::InternalInconsistency => Some(1),
            _ => None,
        }
    }
}

} // verus!

//! The error taxonomy of the lock service core, and its mapping to
//! client-facing responses.

use vstd::prelude::*;

verus! {

/// Why a repository or reconciler operation failed.
///
/// `Conflict`: an active lock already exists for the key.
/// `NotFound`: no record for the given id.
/// `InvalidTransition`: the requested status change is not permitted from the
/// record's current status.
/// `Storage`: the persistence collaborator failed; the core does not
/// interpret it further.
/// `TimeConversion`: the wall clock could not produce an epoch timestamp.
#[derive(Clone, Copy, Debug, PartialEq, Eq, Structural)]
pub enum Error {
    Conflict,
    NotFound,
    InvalidTransition,
    Storage,
    TimeConversion,
}

/// What a client is told about a failure, stripped of internal detail.
#[derive(Clone, Copy, Debug, PartialEq, Eq, Structural)]
pub enum ClientError {
    Exist,
    NotExist,
    ServiceError,
}

impl Error {
    /// The HTTP-equivalent status code and client-facing error for this
    /// failure: a conflict is a 423 "locked" response, a missing record a
    /// 404, a rejected transition a 400, and anything else a 500.
    pub fn client_status_and_error(&self) -> (r: (u16, ClientError))
        ensures
            *self is Conflict ==> r == (423u16, ClientError::Exist),
            *self is NotFound ==> r == (404u16, ClientError::NotExist),
            *self is InvalidTransition ==> r == (400u16, ClientError::ServiceError),
            (*self is Storage || *self is TimeConversion) ==> (r == (
                500u16,
                ClientError::ServiceError,
            )),
    {
        match self {
            Error::Conflict => (423, ClientError::Exist),
            Error::NotFound => (404, ClientError::NotExist),
            Error::InvalidTransition => (400, ClientError::ServiceError),
            Error::Storage => (500, ClientError::ServiceError),
            Error::TimeConversion => (500, ClientError::ServiceError),
        }
    }
}

} // verus!

//! Failures of a request, and the HTTP status each one is answered with.

use vstd::prelude::*;

verus! {

/// Why a request was not answered with a handler's result. None of them
/// carries text: the client learns the status and nothing more.
#[derive(Clone, Copy, Debug, PartialEq, Eq, Structural)]
pub enum HandlerError {
    /// No endpoint matches the method and path.
    NotFound,
    /// The security check failed (missing, malformed, expired or
    /// wrongly-roled token), or an identity was needed and absent.
    Forbidden,
    /// The request body could not be decoded into the endpoint's input.
    BadRequest,
    /// An unexpected failure downstream (datastore, encoding).
    Internal,
}

impl HandlerError {
    pub open spec fn status_code(self) -> u16 {
        match self {
            HandlerError::NotFound => 404,
            HandlerError::Forbidden => 403,
            HandlerError::BadRequest => 400,
            HandlerError::Internal => 500,
        }
    }

    /// The HTTP status that answers this failure.
    pub fn status(&self) -> (r: u16)
        ensures
            r == self.status_code(),
    {
        match self {
            HandlerError::NotFound => 404,
            HandlerError::Forbidden => 403,
            HandlerError::BadRequest => 400,
            HandlerError::Internal => 500,
        }
    }
}

/// The failure of a request that its security check refused.
pub fn forbidden() -> (r: HandlerError)
    ensures
        r == HandlerError::Forbidden,
{
    HandlerError::Forbidden
}

} // verus!

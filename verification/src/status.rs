//! Response statuses and the errors of the service.

use vstd::prelude::*;

verus! {

/// The HTTP statuses that the service answers with.
#[derive(Clone, Copy, Debug, PartialEq, Eq, Structural)]
pub enum Status {
    Success,
    Created,
    NoContent,
    BadRequest,
    NotFound,
    RequestTimeout,
    InternalServerError,
}

impl Status {
    /// The numeric code of the status.
    pub open spec fn spec_code(self) -> u16 {
        match self {
            Status::Success => 200,
            Status::Created => 201,
            Status::NoContent => 204,
            Status::BadRequest => 400,
            Status::NotFound => 404,
            Status::RequestTimeout => 408,
            Status::InternalServerError => 500,
        }
    }

    /// Whether the status reports success (a code from 200 to 299).
    pub open spec fn spec_is_success(self) -> bool {
        200 <= self.spec_code() < 300
    }

    /// The numeric code of the status.
    #[verifier::when_used_as_spec(spec_code)]
    pub fn code(self) -> (code: u16)
        ensures
            code == self.spec_code(),
    {
        match self {
            Status::Success => 200,
            Status::Created => 201,
            Status::NoContent => 204,
            Status::BadRequest => 400,
            Status::NotFound => 404,
            Status::RequestTimeout => 408,
            Status::InternalServerError => 500,
        }
    }

    /// Whether the status reports success.
    #[verifier::when_used_as_spec(spec_is_success)]
    pub fn is_success(self) -> (yes: bool)
        ensures
            yes == self.spec_is_success(),
    {
        match self {
            Status::Success | Status::Created | Status::NoContent => true,
            _ => false,
        }
    }
}

/// What can go wrong while a request is served.
#[derive(Clone, Copy, Debug, PartialEq, Eq, Structural)]
pub enum ApiError {
    /// The referenced id is not in the collection.
    NotFound,
    /// A path, a query or a body could not be decoded.
    BadRequest,
    /// The request ran longer than the global deadline.
    Timeout,
    /// An unexpected failure; nothing of its cause is shown to the client.
    Internal,
}

impl ApiError {
    /// The status that the error is answered with.
    pub open spec fn spec_status(self) -> Status {
        match self {
            ApiError::NotFound => Status::NotFound,
            ApiError::BadRequest => Status::BadRequest,
            ApiError::Timeout => Status::RequestTimeout,
            ApiError::Internal => Status::InternalServerError,
        }
    }

    /// The description that the error's body carries.
    pub open spec fn spec_detail(self) -> Seq<char> {
        match self {
            ApiError::NotFound => "Todo not found"@,
            ApiError::BadRequest => "Malformed request"@,
            ApiError::Timeout => "Request timed out"@,
            ApiError::Internal => "Internal server error"@,
        }
    }

    /// The status that the error is answered with.
    #[verifier::when_used_as_spec(spec_status)]
    pub fn status(self) -> (status: Status)
        ensures
            status == self.spec_status(),
            !status.spec_is_success(),
    {
        match self {
            ApiError::NotFound => Status::NotFound,
            ApiError::BadRequest => Status::BadRequest,
            ApiError::Timeout => Status::RequestTimeout,
            ApiError::Internal => Status::InternalServerError,
        }
    }

    /// The human-readable description that the error's body carries.
    pub fn detail(self) -> (detail: &'static str)
        ensures
            detail@ == self.spec_detail(),
    {
        match self {
            ApiError::NotFound => "Todo not found",
            ApiError::BadRequest => "Malformed request",
            ApiError::Timeout => "Request timed out",
            ApiError::Internal => "Internal server error",
        }
    }
}

/// The global deadline of a request, in seconds. A request that runs longer
/// is abandoned and answered with `Timeout`.
pub const REQUEST_TIMEOUT_SECS: u64 = 10;

/// The error that the middleware reports for a request that failed outside
/// the handlers: `Timeout` where the deadline elapsed, `Internal` otherwise.
pub fn middleware_error(deadline_elapsed: bool) -> (error: ApiError)
    ensures
        error == if deadline_elapsed {
            ApiError::Timeout
        } else {
            ApiError::Internal
        },
{
    if deadline_elapsed {
        ApiError::Timeout
    } else {
        ApiError::Internal
    }
}

} // verus!

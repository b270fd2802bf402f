//! Caller-facing failures and the HTTP status each one is reported with.
use vstd::prelude::*;

verus! {

/// A failure reported to the caller of the service.
#[derive(Debug, Clone, Copy, PartialEq, Eq, Structural)]
pub enum ApiError {
    NotFound,
    InternalServerError,
    BadRequest,
    Unauthorized,
    TooManyRequests,
    SetupError,
}

impl ApiError {
    /// The HTTP status code that reports this failure.
    pub open spec fn status_spec(self) -> u16 {
        match self {
            ApiError::NotFound => 404,
            ApiError::InternalServerError => 500,
            ApiError::BadRequest => 400,
            ApiError::Unauthorized => 401,
            ApiError::TooManyRequests => 429,
            ApiError::SetupError => 500,
        }
    }

    pub fn status_code(&self) -> (r: u16)
        ensures
            r == self.status_spec(),
    {
        match self {
            ApiError::NotFound => 404,
            ApiError::InternalServerError => 500,
            ApiError::BadRequest => 400,
            ApiError::Unauthorized => 401,
            ApiError::TooManyRequests => 429,
            ApiError::SetupError => 500,
        }
    }

    /// The short text logged and sent with the status.
    pub open spec fn message_spec(self) -> Seq<char> {
        match self {
            ApiError::NotFound => "not found"@,
            ApiError::InternalServerError => "internal server error"@,
            ApiError::BadRequest => "bad request"@,
            ApiError::Unauthorized => "unauthorized"@,
            ApiError::TooManyRequests => "too many requests"@,
            ApiError::SetupError => "setup error"@,
        }
    }

    pub fn message(&self) -> (r: &'static str)
        ensures
            r@ == self.message_spec(),
    {
        match self {
            ApiError::NotFound => "not found",
            ApiError::InternalServerError => "internal server error",
            ApiError::BadRequest => "bad request",
            ApiError::Unauthorized => "unauthorized",
            ApiError::TooManyRequests => "too many requests",
            ApiError::SetupError => "setup error",
        }
    }
}

} // verus!

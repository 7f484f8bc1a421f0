//! Service-level error conditions and their HTTP status mapping.

use vstd::prelude::*;

verus! {

/// An error surfaced to a caller of the service.
///
/// `TooManyRequests` is the recoverable quota failure: the caller's request
/// budget is exhausted and refills passively over time.
#[derive(Debug)]
pub enum ServiceError {
    InternalServerError(String),
    BadRequest(String),
    NotFound(String),
    Unauthorized,
    WrongPassword,
    LoginRequired,
    AlreadyPresent(String),
    TooManyRequests,
}

impl ServiceError {
    /// The HTTP status code each error is reported with.
    pub open spec fn spec_status_code(&self) -> int {
        match self {
            ServiceError::InternalServerError(_) => 500,
            ServiceError::BadRequest(_) => 400,
            ServiceError::NotFound(_) => 404,
            ServiceError::Unauthorized => 403,
            ServiceError::WrongPassword => 401,
            ServiceError::LoginRequired => 401,
            ServiceError::AlreadyPresent(_) => 400,
            ServiceError::TooManyRequests => 429,
        }
    }

    pub fn status_code(&self) -> (r: u16)
        ensures
            r == self.spec_status_code(),
    {
        match self {
            ServiceError::InternalServerError(_) => 500,
            ServiceError::BadRequest(_) => 400,
            ServiceError::NotFound(_) => 404,
            ServiceError::Unauthorized => 403,
            ServiceError::WrongPassword => 401,
            ServiceError::LoginRequired => 401,
            ServiceError::AlreadyPresent(_) => 400,
            ServiceError::TooManyRequests => 429,
        }
    }

    /// True exactly for the quota-exhaustion error.
    pub open spec fn is_quota_exhausted(&self) -> bool {
        self is TooManyRequests
    }
}

/// Result alias used by the per-request service surface.
pub type ServiceResult<T> = Result<T, ServiceError>;

} // verus!

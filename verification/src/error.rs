//! The one error type every operation of the service reports.

use vstd::prelude::*;

verus! {

/// Why an operation was refused.
///
/// `NotFound` deliberately covers "never existed", "already used", "already
/// expired" and "already cancelled" alike, so that a caller cannot probe for
/// access codes.
#[derive(Debug)]
pub enum AppError {
    Unauthorized,
    Forbidden,
    NotFound(String),
    BadRequest(String),
    Conflict(String),
    Validation(String),
    TooManyRequests,
    Database(String),
    Jwt(String),
    Internal(String),
    Sms(String),
    File(String),
    CodeExpired,
    InvalidCode,
    TooManyAttempts,
}

/// The kind of an [`AppError`], without its message.
#[derive(Debug, Clone, Copy, PartialEq, Eq, Structural)]
pub enum ErrorKind {
    Unauthorized,
    Forbidden,
    NotFound,
    BadRequest,
    Conflict,
    Validation,
    TooManyRequests,
    Database,
    Jwt,
    Internal,
    Sms,
    File,
    CodeExpired,
    InvalidCode,
    TooManyAttempts,
}

pub type AppResult<T> = Result<T, AppError>;

impl AppError {
    /// The kind of this error.
    pub open spec fn spec_kind(&self) -> ErrorKind {
        match self {
            AppError::Unauthorized => ErrorKind::Unauthorized,
            AppError::Forbidden => ErrorKind::Forbidden,
            AppError::NotFound(_) => ErrorKind::NotFound,
            AppError::BadRequest(_) => ErrorKind::BadRequest,
            AppError::Conflict(_) => ErrorKind::Conflict,
            AppError::Validation(_) => ErrorKind::Validation,
            AppError::TooManyRequests => ErrorKind::TooManyRequests,
            AppError::Database(_) => ErrorKind::Database,
            AppError::Jwt(_) => ErrorKind::Jwt,
            AppError::Internal(_) => ErrorKind::Internal,
            AppError::Sms(_) => ErrorKind::Sms,
            AppError::File(_) => ErrorKind::File,
            AppError::CodeExpired => ErrorKind::CodeExpired,
            AppError::InvalidCode => ErrorKind::InvalidCode,
            AppError::TooManyAttempts => ErrorKind::TooManyAttempts,
        }
    }

    #[verifier::when_used_as_spec(spec_kind)]
    pub fn kind(&self) -> (k: ErrorKind)
        ensures
            k == self.spec_kind(),
    {
        match self {
            AppError::Unauthorized => ErrorKind::Unauthorized,
            AppError::Forbidden => ErrorKind::Forbidden,
            AppError::NotFound(_) => ErrorKind::NotFound,
            AppError::BadRequest(_) => ErrorKind::BadRequest,
            AppError::Conflict(_) => ErrorKind::Conflict,
            AppError::Validation(_) => ErrorKind::Validation,
            AppError::TooManyRequests => ErrorKind::TooManyRequests,
            AppError::Database(_) => ErrorKind::Database,
            AppError::Jwt(_) => ErrorKind::Jwt,
            AppError::Internal(_) => ErrorKind::Internal,
            AppError::Sms(_) => ErrorKind::Sms,
            AppError::File(_) => ErrorKind::File,
            AppError::CodeExpired => ErrorKind::CodeExpired,
            AppError::InvalidCode => ErrorKind::InvalidCode,
            AppError::TooManyAttempts => ErrorKind::TooManyAttempts,
        }
    }
}

} // verus!

//! The closed error type shared by the workflows, with its one mapping to
//! HTTP-facing status codes and machine-readable code strings.

use vstd::prelude::*;

verus! {

/// Error kinds a workflow can report.
///
/// `DatabaseError` wraps a storage failure (its message is already
/// sanitized), `ValidationError` a bad input or business-rule violation,
/// `NotFound` a missing record, `Unauthorized` a missing session, and
/// `InternalError` any unexpected downstream failure such as a
/// misconfigured or failing SMS gateway.
#[derive(Debug, Clone)]
pub enum AppError {
    DatabaseError(String),
    ValidationError(String),
    NotFound(String),
    Unauthorized(String),
    InternalError(String),
}

impl AppError {
    /// The HTTP status the boundary layer must answer with for this error.
    pub fn status_code(&self) -> (code: u16)
        ensures
            code == match *self {
                AppError::DatabaseError(_) => 500u16,
                AppError::ValidationError(_) => 400u16,
                AppError::NotFound(_) => 404u16,
                AppError::Unauthorized(_) => 401u16,
                AppError::InternalError(_) => 500u16,
            },
    {
        match self {
            AppError::DatabaseError(_) => 500,
            AppError::ValidationError(_) => 400,
            AppError::NotFound(_) => 404,
            AppError::Unauthorized(_) => 401,
            AppError::InternalError(_) => 500,
        }
    }

    /// The machine-readable code string for client-side branching.
    pub fn error_code(&self) -> (code: String)
        ensures
            code@ == match *self {
                AppError::DatabaseError(_) => "DATABASE_ERROR"@,
                AppError::ValidationError(_) => "VALIDATION_ERROR"@,
                AppError::NotFound(_) => "NOT_FOUND"@,
                AppError::Unauthorized(_) => "UNAUTHORIZED"@,
                AppError::InternalError(_) => "INTERNAL_ERROR"@,
            },
    {
        match self {
            AppError::DatabaseError(_) => "DATABASE_ERROR".to_owned(),
            AppError::ValidationError(_) => "VALIDATION_ERROR".to_owned(),
            AppError::NotFound(_) => "NOT_FOUND".to_owned(),
            AppError::Unauthorized(_) => "UNAUTHORIZED".to_owned(),
            AppError::InternalError(_) => "INTERNAL_ERROR".to_owned(),
        }
    }

    /// The user-visible message carried by this error.  For a storage
    /// failure the raw text is never exposed: a generic message is
    /// returned instead.
    pub fn public_message(&self) -> (msg: String)
        ensures
            msg@ == match *self {
                AppError::DatabaseError(_) => "Database error occurred"@,
                AppError::ValidationError(m) => m@,
                AppError::NotFound(m) => m@,
                AppError::Unauthorized(m) => m@,
                AppError::InternalError(m) => m@,
            },
    {
        match self {
            AppError::DatabaseError(_) => "Database error occurred".to_owned(),
            AppError::ValidationError(m) => m.clone(),
            AppError::NotFound(m) => m.clone(),
            AppError::Unauthorized(m) => m.clone(),
            AppError::InternalError(m) => m.clone(),
        }
    }
}

pub type AppResult<T> = Result<T, AppError>;

} // verus!

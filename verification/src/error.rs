//! The error type shared by every operation of the library.
use vstd::prelude::*;

verus! {

/// Failures that operations report to their callers.
#[derive(Debug, Clone, PartialEq, Eq)]
pub enum AppError {
    NotFound(String),
    Conflict(String),
    BadRequest(String),
    Forbidden(String),
    Validation(String),
    Internal(String),
    CaddyApi(String),
    ContainerRuntime(String),
    Auth(String),
    Jwt(String),
    InvalidCredentials,
    Unauthorized,
    Hash,
}

impl AppError {
    /// A copy of the error.
    pub fn duplicate(&self) -> (r: AppError)
        ensures
            r == *self,
    {
        match self {
            AppError::NotFound(m) => AppError::NotFound(m.clone()),
            AppError::Conflict(m) => AppError::Conflict(m.clone()),
            AppError::BadRequest(m) => AppError::BadRequest(m.clone()),
            AppError::Forbidden(m) => AppError::Forbidden(m.clone()),
            AppError::Validation(m) => AppError::Validation(m.clone()),
            AppError::Internal(m) => AppError::Internal(m.clone()),
            AppError::CaddyApi(m) => AppError::CaddyApi(m.clone()),
            AppError::ContainerRuntime(m) => AppError::ContainerRuntime(m.clone()),
            AppError::Auth(m) => AppError::Auth(m.clone()),
            AppError::Jwt(m) => AppError::Jwt(m.clone()),
            AppError::InvalidCredentials => AppError::InvalidCredentials,
            AppError::Unauthorized => AppError::Unauthorized,
            AppError::Hash => AppError::Hash,
        }
    }
}

} // verus!

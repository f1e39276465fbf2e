//! The errors the service answers with, and how each maps to HTTP.

use vstd::prelude::*;

use crate::model::{Status, Timestamp};

verus! {

#[derive(Debug, Clone)]
pub enum AppError {
    EmailAlreadyExists,
    InvalidCredentials,
    AccountLocked { until: Timestamp },
    InvalidToken,
    Forbidden,
    Unauthorized,
    NotFound,
    ProjectArchived,
    IterationConflict { conflict_name: String },
    InvalidStatusTransition { from: Status, to: Status },
    InvalidHoursPrecision,
    AttachmentTooLarge { max: i64, actual: i64 },
    /// A failure of the relational store, with its message.
    Database(String),
    /// Any other failure, with its message.
    Internal(String),
}

/// The HTTP status each error is answered with.
pub open spec fn status_code_of(e: AppError) -> u16 {
    match e {
        AppError::Unauthorized => 401,
        AppError::Forbidden | AppError::ProjectArchived => 403,
        AppError::NotFound => 404,
        AppError::EmailAlreadyExists
        | AppError::IterationConflict { .. }
        | AppError::InvalidStatusTransition { .. }
        | AppError::InvalidHoursPrecision
        | AppError::AttachmentTooLarge { .. } => 422,
        AppError::InvalidCredentials
        | AppError::AccountLocked { .. }
        | AppError::InvalidToken => 400,
        AppError::Database(_) | AppError::Internal(_) => 500,
    }
}

/// The machine-readable code each error carries in a response body.
pub open spec fn error_code_of(e: AppError) -> Seq<char> {
    match e {
        AppError::EmailAlreadyExists => "EMAIL_ALREADY_EXISTS"@,
        AppError::InvalidCredentials => "INVALID_CREDENTIALS"@,
        AppError::AccountLocked { .. } => "ACCOUNT_LOCKED"@,
        AppError::InvalidToken => "INVALID_TOKEN"@,
        AppError::Forbidden => "FORBIDDEN"@,
        AppError::Unauthorized => "UNAUTHORIZED"@,
        AppError::NotFound => "NOT_FOUND"@,
        AppError::ProjectArchived => "PROJECT_ARCHIVED"@,
        AppError::IterationConflict { .. } => "ITERATION_CONFLICT"@,
        AppError::InvalidStatusTransition { .. } => "INVALID_STATUS_TRANSITION"@,
        AppError::InvalidHoursPrecision => "INVALID_HOURS_PRECISION"@,
        AppError::AttachmentTooLarge { .. } => "ATTACHMENT_TOO_LARGE"@,
        AppError::Database(_) => "DATABASE_ERROR"@,
        AppError::Internal(_) => "INTERNAL_ERROR"@,
    }
}

impl AppError {
    /// The HTTP status code of this error.
    pub fn status_code(&self) -> (r: u16)
        ensures
            r == status_code_of(*self),
    {
        match self {
            AppError::Unauthorized => 401,
            AppError::Forbidden | AppError::ProjectArchived => 403,
            AppError::NotFound => 404,
            AppError::EmailAlreadyExists
            | AppError::IterationConflict { .. }
            | AppError::InvalidStatusTransition { .. }
            | AppError::InvalidHoursPrecision
            | AppError::AttachmentTooLarge { .. } => 422,
            AppError::InvalidCredentials
            | AppError::AccountLocked { .. }
            | AppError::InvalidToken => 400,
            AppError::Database(_) | AppError::Internal(_) => 500,
        }
    }

    /// The machine-readable code of this error.
    pub fn error_code(&self) -> (r: &'static str)
        ensures
            r@ == error_code_of(*self),
    {
        match self {
            AppError::EmailAlreadyExists => "EMAIL_ALREADY_EXISTS",
            AppError::InvalidCredentials => "INVALID_CREDENTIALS",
            AppError::AccountLocked { .. } => "ACCOUNT_LOCKED",
            AppError::InvalidToken => "INVALID_TOKEN",
            AppError::Forbidden => "FORBIDDEN",
            AppError::Unauthorized => "UNAUTHORIZED",
            AppError::NotFound => "NOT_FOUND",
            AppError::ProjectArchived => "PROJECT_ARCHIVED",
            AppError::IterationConflict { .. } => "ITERATION_CONFLICT",
            AppError::InvalidStatusTransition { .. } => "INVALID_STATUS_TRANSITION",
            AppError::InvalidHoursPrecision => "INVALID_HOURS_PRECISION",
            AppError::AttachmentTooLarge { .. } => "ATTACHMENT_TOO_LARGE",
            AppError::Database(_) => "DATABASE_ERROR",
            AppError::Internal(_) => "INTERNAL_ERROR",
        }
    }
}

} // verus!

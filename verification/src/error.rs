//! The domain errors and the status each one is answered with.

use vstd::prelude::*;

verus! {

/// Why an operation failed.
#[derive(Clone, Copy, PartialEq, Eq, Structural, Debug)]
pub enum AppError {
    /// No row has the requested identifier.
    UserNotFound,
    /// The request did not have the expected shape.
    Validation,
    /// The store failed for any other reason.
    Database,
}

pub const STATUS_OK: u16 = 200;

pub const STATUS_CREATED: u16 = 201;

pub const STATUS_NO_CONTENT: u16 = 204;

pub const STATUS_BAD_REQUEST: u16 = 400;

pub const STATUS_NOT_FOUND: u16 = 404;

pub const STATUS_INTERNAL_SERVER_ERROR: u16 = 500;

/// The status that an error is answered with.
pub open spec fn status_of(error: AppError) -> u16 {
    match error {
        AppError::UserNotFound => STATUS_NOT_FOUND,
        AppError::Validation => STATUS_BAD_REQUEST,
        AppError::Database => STATUS_INTERNAL_SERVER_ERROR,
    }
}

impl AppError {
    /// The HTTP status of this error: 404 for a missing user, 400 for a
    /// malformed request, 500 for everything else.
    pub fn status_code(&self) -> (status: u16)
        ensures
            status == status_of(*self),
    {
        match self {
            AppError::UserNotFound => STATUS_NOT_FOUND,
            AppError::Validation => STATUS_BAD_REQUEST,
            AppError::Database => STATUS_INTERNAL_SERVER_ERROR,
        }
    }
}

} // verus!

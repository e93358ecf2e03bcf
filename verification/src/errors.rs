//! The application's error kinds.
use vstd::prelude::*;

verus! {

/// An error of the backend, with a human-readable message.
#[derive(Debug, Clone)]
pub enum AppError {
    Validation(String),
    Config(String),
    ExternalService(String),
    Internal(String),
    InternalServerError(String),
    BadRequest(String),
    NotFound(String),
}

/// `r` is `Ok` exactly when there is no error, and otherwise the validation
/// error with that message.
pub open spec fn validation_result(r: Result<(), AppError>, err: Option<Seq<char>>) -> bool {
    match err {
        None => r is Ok,
        Some(m) => r matches Err(AppError::Validation(msg)) && msg@ == m,
    }
}

} // verus!

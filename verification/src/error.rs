//! What a request can fail with.

use vstd::prelude::*;

verus! {

/// The failure of a request, with the message that the caller is shown.
#[derive(Debug, PartialEq, Eq)]
pub enum AppError {
    /// A database statement failed.
    Database(String),
    /// What the request names does not exist.
    NotFound(String),
    /// The caller could not be authenticated.
    Authentication(String),
    /// The caller may not do this.
    Authorization(String),
    /// A provider or the service itself misbehaved.
    Internal(String),
    /// A configured value is not acceptable.
    Validation(String),
}

/// The mathematical value of an [`AppError`].
pub enum ErrorValue {
    Database(Seq<char>),
    NotFound(Seq<char>),
    Authentication(Seq<char>),
    Authorization(Seq<char>),
    Internal(Seq<char>),
    Validation(Seq<char>),
}

impl View for AppError {
    type V = ErrorValue;

    open spec fn view(&self) -> ErrorValue {
        match self {
            AppError::Database(message) => ErrorValue::Database(message@),
            AppError::NotFound(message) => ErrorValue::NotFound(message@),
            AppError::Authentication(message) => ErrorValue::Authentication(message@),
            AppError::Authorization(message) => ErrorValue::Authorization(message@),
            AppError::Internal(message) => ErrorValue::Internal(message@),
            AppError::Validation(message) => ErrorValue::Validation(message@),
        }
    }
}

impl Clone for AppError {
    fn clone(&self) -> (copy: AppError)
        ensures
            copy@ == self@,
    {
        match self {
            AppError::Database(message) => AppError::Database(message.clone()),
            AppError::NotFound(message) => AppError::NotFound(message.clone()),
            AppError::Authentication(message) => AppError::Authentication(message.clone()),
            AppError::Authorization(message) => AppError::Authorization(message.clone()),
            AppError::Internal(message) => AppError::Internal(message.clone()),
            AppError::Validation(message) => AppError::Validation(message.clone()),
        }
    }
}

} // verus!

//! The closed set of failures that the domain reports.

use vstd::prelude::*;
use crate::text::concat;

verus! {

/// A failure record: a plain validation message, or one raised by the API or
/// repository layers around the domain.
#[derive(Debug)]
pub enum CustomError {
    Error(String),
    ApiError(String),
    RepositoryError(String),
}

/// Mathematical model of a `CustomError`.
pub ghost enum ErrorView {
    Error(Seq<char>),
    ApiError(Seq<char>),
    RepositoryError(Seq<char>),
}

impl View for CustomError {
    type V = ErrorView;

    open spec fn view(&self) -> ErrorView {
        match self {
            CustomError::Error(m) => ErrorView::Error(m@),
            CustomError::ApiError(m) => ErrorView::ApiError(m@),
            CustomError::RepositoryError(m) => ErrorView::RepositoryError(m@),
        }
    }
}

pub const API_ERROR_PREFIX: &'static str = "ApiError: ";

pub const REPOSITORY_ERROR_PREFIX: &'static str = "RepositoryError: ";

/// The human-readable text of an error.
pub open spec fn error_text(e: ErrorView) -> Seq<char> {
    match e {
        ErrorView::Error(m) => m,
        ErrorView::ApiError(m) => API_ERROR_PREFIX@ + m,
        ErrorView::RepositoryError(m) => REPOSITORY_ERROR_PREFIX@ + m,
    }
}

impl CustomError {
    /// The human-readable text of the error.
    pub fn to_string(&self) -> (r: String)
        ensures
            r@ == error_text(self@),
    {
        match self {
            CustomError::Error(m) => m.clone(),
            CustomError::ApiError(m) => concat(API_ERROR_PREFIX, m.as_str()),
            CustomError::RepositoryError(m) => concat(REPOSITORY_ERROR_PREFIX, m.as_str()),
        }
    }

    /// A copy of the error with the same model.
    pub fn duplicate(&self) -> (r: CustomError)
        ensures
            r@ == self@,
    {
        match self {
            CustomError::Error(m) => CustomError::Error(m.clone()),
            CustomError::ApiError(m) => CustomError::ApiError(m.clone()),
            CustomError::RepositoryError(m) => CustomError::RepositoryError(m.clone()),
        }
    }
}

} // verus!

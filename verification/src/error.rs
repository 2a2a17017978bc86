//! The errors the service reports, and how each one is answered.
use vstd::prelude::*;
use crate::validation::{violations_text, ValidationErrors};

verus! {

/// An error of the service.
#[derive(Clone, Debug)]
pub enum AppError {
    InternalServerError,
    /// A storage failure, with the storage layer's description of it.
    Database(String),
    Validation(ValidationErrors),
    NotFound(String),
    Conflict(String),
    ExternalService(String),
    InvalidInput(String),
}

/// The JSON body of an error response: `{"error": ..., "details": ...}`, the
/// details being left out when absent.
#[derive(Clone, Debug)]
pub struct ErrorBody {
    pub error: String,
    pub details: Option<String>,
}

impl AppError {
    /// The HTTP status of the response to the error.
    pub open spec fn spec_status(&self) -> u16 {
        match self {
            AppError::InternalServerError => 500,
            AppError::Database(_) => 500,
            AppError::Validation(_) => 400,
            AppError::NotFound(_) => 404,
            AppError::Conflict(_) => 409,
            AppError::ExternalService(_) => 500,
            AppError::InvalidInput(_) => 400,
        }
    }

    /// The `error` text of the response body.
    pub open spec fn spec_error_text(&self) -> Seq<char> {
        match self {
            AppError::InternalServerError => "Internal server error"@,
            AppError::Database(_) => "Database error"@,
            AppError::Validation(_) => "Validation error"@,
            AppError::NotFound(m) => m@,
            AppError::Conflict(m) => m@,
            AppError::ExternalService(_) => "External service error"@,
            AppError::InvalidInput(_) => "Invalid input"@,
        }
    }

    /// The `details` text of the response body, when there is one.
    pub open spec fn spec_details(&self) -> Option<Seq<char>> {
        match self {
            AppError::Validation(e) => Some(violations_text(e@)),
            AppError::ExternalService(m) => Some(m@),
            AppError::InvalidInput(m) => Some(m@),
            _ => None,
        }
    }

    /// The one-line description of the error.
    pub open spec fn spec_message(&self) -> Seq<char> {
        match self {
            AppError::InternalServerError => "Internal server error"@,
            AppError::Database(m) => "Database error: "@ + m@,
            AppError::Validation(e) => "Validation error: "@ + violations_text(e@),
            AppError::NotFound(m) => "Not found: "@ + m@,
            AppError::Conflict(m) => "Conflict: "@ + m@,
            AppError::ExternalService(m) => "External service error: "@ + m@,
            AppError::InvalidInput(m) => "Invalid input: "@ + m@,
        }
    }

    /// The HTTP status of the response to the error.
    pub fn status_code(&self) -> (s: u16)
        ensures
            s == self.spec_status(),
    {
        match self {
            AppError::InternalServerError => 500,
            AppError::Database(_) => 500,
            AppError::Validation(_) => 400,
            AppError::NotFound(_) => 404,
            AppError::Conflict(_) => 409,
            AppError::ExternalService(_) => 500,
            AppError::InvalidInput(_) => 400,
        }
    }

    /// The JSON body of the response to the error.
    pub fn error_body(&self) -> (b: ErrorBody)
        ensures
            b.error@ == self.spec_error_text(),
            b.details is Some <==> self.spec_details() is Some,
            b.details matches Some(d) ==> d@ == self.spec_details()->0,
    {
        match self {
            AppError::InternalServerError => ErrorBody {
                error: String::from_str("Internal server error"),
                details: None,
            },
            AppError::Database(_) => ErrorBody {
                error: String::from_str("Database error"),
                details: None,
            },
            AppError::Validation(e) => ErrorBody {
                error: String::from_str("Validation error"),
                details: Some(e.describe()),
            },
            AppError::NotFound(m) => ErrorBody { error: m.clone(), details: None },
            AppError::Conflict(m) => ErrorBody { error: m.clone(), details: None },
            AppError::ExternalService(m) => ErrorBody {
                error: String::from_str("External service error"),
                details: Some(m.clone()),
            },
            AppError::InvalidInput(m) => ErrorBody {
                error: String::from_str("Invalid input"),
                details: Some(m.clone()),
            },
        }
    }

    /// The one-line description of the error.
    pub fn message(&self) -> (t: String)
        ensures
            t@ == self.spec_message(),
    {
        match self {
            AppError::InternalServerError => String::from_str("Internal server error"),
            AppError::Database(m) => String::from_str("Database error: ").concat(m.as_str()),
            AppError::Validation(e) => String::from_str("Validation error: ").concat(
                e.describe().as_str(),
            ),
            AppError::NotFound(m) => String::from_str("Not found: ").concat(m.as_str()),
            AppError::Conflict(m) => String::from_str("Conflict: ").concat(m.as_str()),
            AppError::ExternalService(m) => String::from_str("External service error: ").concat(
                m.as_str(),
            ),
            AppError::InvalidInput(m) => String::from_str("Invalid input: ").concat(m.as_str()),
        }
    }
}

/// Bad input is answered with 400, a missing record with 404, a conflict with
/// 409, and every failure of the service itself with 500.
pub proof fn law_error_statuses(e: AppError)
    ensures
        (e is Validation || e is InvalidInput) <==> e.spec_status() == 400,
        e is NotFound <==> e.spec_status() == 404,
        e is Conflict <==> e.spec_status() == 409,
        (e is InternalServerError || e is Database || e is ExternalService) <==> e.spec_status()
            == 500,
        e is NotFound || e is Conflict ==> e.spec_details() is None,
{
}

} // verus!

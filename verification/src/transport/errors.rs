//! Mapping from a use-case failure to its external representation: a status
//! code, and for every failure but a storage one a coded error body.

use vstd::prelude::*;
use crate::domain::errors::BudgetServiceError;

verus! {

/// The error body handed to clients: a stable code and a human-readable
/// message.
#[derive(Debug)]
pub struct JsonError {
    pub code: String,
    pub message: String,
}

impl BudgetServiceError {
    /// The status code this failure maps to: validation failures are the
    /// caller's fault, a missing entity is absence, everything storage-side
    /// is an internal failure.
    pub open spec fn spec_status_code(self) -> u16 {
        match self {
            BudgetServiceError::RecordValidationError(_) => 400,
            BudgetServiceError::CategoryValidationError(_) => 400,
            BudgetServiceError::AccountValidationError(_) => 400,
            BudgetServiceError::EntityNotFoundError(_) => 404,
            BudgetServiceError::DatabaseError(_) => 500,
        }
    }

    /// Computes the status code this failure maps to.
    pub fn status_code(&self) -> (r: u16)
        ensures
            r == self.spec_status_code(),
    {
        match self {
            BudgetServiceError::RecordValidationError(_) => 400,
            BudgetServiceError::CategoryValidationError(_) => 400,
            BudgetServiceError::AccountValidationError(_) => 400,
            BudgetServiceError::EntityNotFoundError(_) => 404,
            BudgetServiceError::DatabaseError(_) => 500,
        }
    }

    /// The stable code naming this failure family in an error body; a storage
    /// failure is opaque and gets none.
    pub open spec fn spec_code_label(self) -> Option<Seq<char>> {
        match self {
            BudgetServiceError::RecordValidationError(_) => Some("RecordValidationError"@),
            BudgetServiceError::CategoryValidationError(_) => Some("CategoryValidationError"@),
            BudgetServiceError::AccountValidationError(_) => Some("AccountValidationError"@),
            BudgetServiceError::EntityNotFoundError(_) => Some("EntityNotFoundError"@),
            BudgetServiceError::DatabaseError(_) => None,
        }
    }

    /// The message carried in an error body: a validation failure reports the
    /// inner description alone, a missing entity reports the full
    /// description, and a storage failure reports nothing.
    pub open spec fn spec_body_message(self) -> Option<Seq<char>> {
        match self {
            BudgetServiceError::RecordValidationError(e) => Some(e.spec_message()),
            BudgetServiceError::CategoryValidationError(e) => Some(e.spec_message()),
            BudgetServiceError::AccountValidationError(e) => Some(e.spec_message()),
            BudgetServiceError::EntityNotFoundError(_) => Some(self.spec_message()),
            BudgetServiceError::DatabaseError(_) => None,
        }
    }
}

impl JsonError {
    /// Builds the error body of a failure: its code and message, or nothing
    /// for an opaque storage failure.
    pub fn of_error(e: &BudgetServiceError) -> (r: Option<JsonError>)
        ensures
            r is Some <==> e.spec_code_label() is Some,
            r matches Some(body) ==> Some(body.code@) == e.spec_code_label() && Some(body.message@)
                == e.spec_body_message(),
    {
        match e {
            BudgetServiceError::RecordValidationError(inner) => Some(
                JsonError { code: "RecordValidationError".to_owned(), message: inner.message() },
            ),
            BudgetServiceError::CategoryValidationError(inner) => Some(
                JsonError { code: "CategoryValidationError".to_owned(), message: inner.message() },
            ),
            BudgetServiceError::AccountValidationError(inner) => Some(
                JsonError { code: "AccountValidationError".to_owned(), message: inner.message() },
            ),
            BudgetServiceError::EntityNotFoundError(_) => Some(
                JsonError { code: "EntityNotFoundError".to_owned(), message: e.message() },
            ),
            BudgetServiceError::DatabaseError(_) => None,
        }
    }
}

} // verus!

//! The error taxonomy every use-case reports: validation failures detected
//! before any write, missing dependencies, and opaque storage failures.

use vstd::prelude::*;
use crate::domain::models::{AccountError, CategoryError, RecordError};

verus! {

/// Typed failure of a service use-case. Validation errors are always raised
/// before any write; a storage failure is carried opaquely as its message.
#[derive(Debug)]
pub enum BudgetServiceError {
    RecordValidationError(RecordError),
    CategoryValidationError(CategoryError),
    AccountValidationError(AccountError),
    DatabaseError(String),
    EntityNotFoundError(String),
}

impl BudgetServiceError {
    /// The human-readable description of this failure, prefixed by the family
    /// it belongs to.
    pub open spec fn spec_message(self) -> Seq<char> {
        match self {
            BudgetServiceError::RecordValidationError(e) => {
                "record validation error: "@ + e.spec_message()
            },
            BudgetServiceError::CategoryValidationError(e) => {
                "cagegory validation error: "@ + e.spec_message()
            },
            BudgetServiceError::AccountValidationError(e) => {
                "account validation error: "@ + e.spec_message()
            },
            BudgetServiceError::DatabaseError(m) => "database error: "@ + m@,
            BudgetServiceError::EntityNotFoundError(n) => n@ + " not found"@,
        }
    }

    /// Renders the human-readable description of this failure.
    pub fn message(&self) -> (r: String)
        ensures
            r@ == self.spec_message(),
    {
        match self {
            BudgetServiceError::RecordValidationError(e) => {
                let mut m = "record validation error: ".to_owned();
                let inner = e.message();
                m.append(inner.as_str());
                m
            },
            BudgetServiceError::CategoryValidationError(e) => {
                let mut m = "cagegory validation error: ".to_owned();
                let inner = e.message();
                m.append(inner.as_str());
                m
            },
            BudgetServiceError::AccountValidationError(e) => {
                let mut m = "account validation error: ".to_owned();
                let inner = e.message();
                m.append(inner.as_str());
                m
            },
            BudgetServiceError::DatabaseError(dm) => {
                let mut m = "database error: ".to_owned();
                m.append(dm.as_str());
                m
            },
            BudgetServiceError::EntityNotFoundError(n) => {
                let mut m = n.as_str().to_owned();
                m.append(" not found");
                m
            },
        }
    }
}

} // verus!

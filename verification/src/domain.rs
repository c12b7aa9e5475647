//! Domain model: entity types whose constructors enforce the field
//! invariants, and the validation errors they report.

pub mod errors;
pub mod models;
pub mod text;

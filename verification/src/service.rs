//! Service layer: one orchestration unit per entity family, implementing the
//! business use-cases against the repository abstraction.

pub mod accounts;
pub mod budget;
pub mod categories;
pub mod records;

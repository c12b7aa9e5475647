//! Budget tracking core: domain entities with enforced invariants, a storage
//! abstraction with a verified in-memory implementation, the service layer
//! that orchestrates validation, dependency resolution, mutation and re-read,
//! and the parameterized query construction used to list records.

pub mod domain;
pub mod repository;
pub mod service;
pub mod transport;

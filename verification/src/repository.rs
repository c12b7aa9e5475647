//! Storage adapters and storage-facing data shapes: an in-memory adapter
//! satisfying the full repository abstraction, the row shapes a relational
//! adapter reads, and the parameterized listing query construction.

pub mod dto;
pub mod errors;
pub mod memory;
pub mod query;

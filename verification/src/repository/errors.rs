//! Storage-level failure shape: an opaque engine failure, or a missing row.

use vstd::prelude::*;

verus! {

/// Failure reported by a storage adapter. An engine failure is carried
/// opaquely as its message; a missing row names the entity kind.
#[derive(Debug)]
pub enum RepositoryError {
    DatabaseError(String),
    NotFound { entityname: String },
}

} // verus!

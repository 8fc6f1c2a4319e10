//! The error taxonomy: the store's typed not-found condition, the
//! storage-level error with its diagnostic message, and the domain
//! errors the service maps both into.

use vstd::prelude::*;

verus! {

/// The typed condition the store signals when a room identifier has no
/// corresponding room.
#[derive(Clone, Copy, Debug, PartialEq, Eq, Structural)]
pub struct RoomNotFound {
    pub room_id: u128,
}

/// A storage-level failure, carrying a diagnostic message.
#[derive(Debug)]
pub struct RepositoryError {
    pub message: String,
}

/// The in-memory store's error, wrapping the storage-level error it
/// stands for.
#[derive(Debug)]
pub struct InMemoryRepositoryError(pub RepositoryError);

impl InMemoryRepositoryError {
    /// Unwraps the storage-level error.
    pub fn into_inner(self) -> (r: RepositoryError)
        ensures
            r == self.0,
    {
        self.0
    }
}

impl From<String> for InMemoryRepositoryError {
    fn from(message: String) -> (r: Self) {
        InMemoryRepositoryError(RepositoryError { message })
    }
}

impl vstd::std_specs::convert::FromSpecImpl<String> for InMemoryRepositoryError {
    open spec fn obeys_from_spec() -> bool {
        true
    }

    open spec fn from_spec(message: String) -> Self {
        InMemoryRepositoryError(RepositoryError { message })
    }
}

/// The domain error taxonomy: a room identifier with no corresponding
/// room, surfaced with the identifier for diagnostics, or an unexpected
/// storage failure, surfaced without internal detail.
#[derive(Debug)]
pub enum CommonError {
    NotFound { room_id: u128 },
    Repository { message: String },
}

impl From<RepositoryError> for CommonError {
    fn from(e: RepositoryError) -> (r: Self) {
        CommonError::Repository { message: e.message }
    }
}

impl vstd::std_specs::convert::FromSpecImpl<RepositoryError> for CommonError {
    open spec fn obeys_from_spec() -> bool {
        true
    }

    open spec fn from_spec(e: RepositoryError) -> Self {
        CommonError::Repository { message: e.message }
    }
}

} // verus!

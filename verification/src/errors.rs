//! The error taxonomy, bottom to top: storage-layer errors and the
//! application-layer errors that wrap them.

use vstd::prelude::*;

verus! {

/// A failure reported by a storage backend.
#[derive(Debug)]
pub enum RepositoryError {
    /// Any storage failure that is not classified further; the payload is
    /// the backend's own description and never reaches the wire.
    DatabaseError(String),
    /// The addressed row does not exist.
    NotFound,
    /// A uniqueness constraint was violated.
    DuplicateEntry,
}

impl RepositoryError {
    /// Classifies a failed write reported by a relational backend. The
    /// backend names the violated constraint, if any; a violation of the
    /// given uniqueness constraint is a duplicate entry, anything else is
    /// an opaque database error carrying the backend's description.
    pub fn from_constraint(
        constraint: Option<String>,
        unique_constraint: &str,
        detail: String,
    ) -> (r: RepositoryError)
        ensures
            (constraint matches Some(c) && c@ == unique_constraint@) ==> r
                == RepositoryError::DuplicateEntry,
            !(constraint matches Some(c) && c@ == unique_constraint@) ==> r
                == RepositoryError::DatabaseError(detail),
    {
        match constraint {
            Some(c) => {
                if c == unique_constraint.to_owned() {
                    RepositoryError::DuplicateEntry
                } else {
                    RepositoryError::DatabaseError(detail)
                }
            },
            None => RepositoryError::DatabaseError(detail),
        }
    }
}

/// An application-level outcome of a use case.
#[derive(Debug)]
pub enum ApplicationError {
    /// A storage failure, wrapped as-is.
    Repository(RepositoryError),
    /// The input was rejected before any storage call; the payload is a
    /// human-readable message.
    Validation(String),
    /// The addressed entity does not exist.
    NotFound,
    /// Declared for completeness; no current flow produces it.
    Unauthorized,
}

impl ApplicationError {
    /// Wraps a storage error without reinterpreting it.
    pub fn from(err: RepositoryError) -> (r: ApplicationError)
        ensures
            r == ApplicationError::Repository(err),
    {
        ApplicationError::Repository(err)
    }
}

} // verus!

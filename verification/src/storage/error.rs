//! Errors of the local store.

use vstd::prelude::*;
use vstd::string::StringExecFns;

verus! {

/// Errors of the local store.
#[derive(Debug, Clone)]
pub enum StorageError {
    /// The database reported a failure.
    DatabaseError(String),
    /// A record was not found.
    NotFound(String),
    /// An input was rejected.
    InvalidInput(String),
    /// A record could not be encoded or decoded.
    SerializationError(String),
    /// Creating or upgrading the schema failed.
    MigrationError(String),
    /// A file-system operation failed.
    IoError(String),
}

impl StorageError {
    /// The user-facing text of the error.
    pub open spec fn message(&self) -> Seq<char> {
        match self {
            StorageError::DatabaseError(m) => "Database error: "@ + m@,
            StorageError::NotFound(m) => "Not found: "@ + m@,
            StorageError::InvalidInput(m) => "Invalid input: "@ + m@,
            StorageError::SerializationError(m) => "Serialization error: "@ + m@,
            StorageError::MigrationError(m) => "Migration error: "@ + m@,
            StorageError::IoError(m) => "IO error: "@ + m@,
        }
    }

    /// The user-facing text of the error.
    pub fn to_string(&self) -> (r: String)
        ensures
            r@ == self.message(),
    {
        match self {
            StorageError::DatabaseError(m) => String::from_str("Database error: ").concat(m.as_str()),
            StorageError::NotFound(m) => String::from_str("Not found: ").concat(m.as_str()),
            StorageError::InvalidInput(m) => String::from_str("Invalid input: ").concat(m.as_str()),
            StorageError::SerializationError(m) => String::from_str("Serialization error: ").concat(m.as_str()),
            StorageError::MigrationError(m) => String::from_str("Migration error: ").concat(m.as_str()),
            StorageError::IoError(m) => String::from_str("IO error: ").concat(m.as_str()),
        }
    }

    /// The error for a record of kind `kind` (such as "Project") that does
    /// not exist under `id`.
    pub fn record_not_found(kind: &str, id: &str) -> (r: StorageError)
        ensures
            r matches StorageError::NotFound(m) && m@ == kind@ + " "@ + id@ + " not found"@,
    {
        StorageError::NotFound(String::from_str(kind).concat(" ").concat(id).concat(" not found"))
    }

    /// The error for a default environment that is not one of the
    /// project's environments.
    pub fn environment_not_in_project() -> (r: StorageError)
        ensures
            r matches StorageError::NotFound(m) && m@ == "Environment not found in project"@,
    {
        StorageError::NotFound(String::from_str("Environment not found in project"))
    }
}

} // verus!

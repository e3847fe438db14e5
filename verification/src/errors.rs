//! Error taxonomy of the migration engine.
//!
//! Each source adapter surfaces its failures through one of these enums.
//! Failures of the underlying database driver or HTTP client arise in the
//! unverified driver layer; they are handed to the library as plain message
//! strings and carried in the corresponding variant.

use vstd::prelude::*;
use vstd::string::StringExecFns;

verus! {

/// Errors shared by every migration source: a failure reported by the
/// database driver, or a failed migration run.
#[derive(Debug, Clone)]
pub enum LibsqlMigratorBaseError {
    /// The database driver reported an error; the payload is its message.
    LibSqlError(String),
    /// A migration could not be applied; the payload describes why.
    MigrationFailed(String),
}

/// Errors of the directory source adapter.
#[derive(Debug, Clone)]
pub enum LibsqlDirMigratorError {
    /// A shared database-level failure.
    BaseError(LibsqlMigratorBaseError),
    /// The given migration root path does not exist.
    MigrationDirNotFound(String),
    /// The given path exists but is neither a directory nor a single
    /// recognized script file.
    InvalidMigrationPath(String),
    /// The filesystem walk or a file read failed; the payload describes it.
    ErrorWhileGettingSQLFiles(String),
}

/// Errors of the inline-content source adapter.
#[derive(Debug, Clone)]
pub enum LibsqlContentMigratorError {
    /// A shared database-level failure.
    BaseError(LibsqlMigratorBaseError),
    /// The caller supplied an empty migration id or an empty script.
    InvalidInput(String),
}

/// Errors of the remote-manifest source adapter.
#[derive(Debug, Clone)]
pub enum LibsqlRemoteMigratorError {
    /// A shared database-level failure.
    BaseError(LibsqlMigratorBaseError),
    /// The HTTP client reported an error; the payload is its message.
    ReqwestError(String),
    /// The given manifest URL is not usable.
    MigrationUrlNotValid(String),
}

impl LibsqlMigratorBaseError {
    /// Human-readable description of the error.
    pub fn message(&self) -> (r: String)
        ensures
            match self {
                LibsqlMigratorBaseError::LibSqlError(e) => r@ == "LibSqlError: "@ + e@,
                LibsqlMigratorBaseError::MigrationFailed(m) => r@
                    == "LibsqlMigrationError: Migration failed | "@ + m@,
            },
    {
        match self {
            LibsqlMigratorBaseError::LibSqlError(e) => String::from_str("LibSqlError: ").concat(
                e.as_str(),
            ),
            LibsqlMigratorBaseError::MigrationFailed(m) => String::from_str(
                "LibsqlMigrationError: Migration failed | ",
            ).concat(m.as_str()),
        }
    }
}

impl LibsqlDirMigratorError {
    /// Human-readable description of the error.
    pub fn message(&self) -> (r: String)
        ensures
            match self {
                LibsqlDirMigratorError::BaseError(e) => r@ == e.message_spec(),
                LibsqlDirMigratorError::MigrationDirNotFound(p) => r@ == "LibsqlDirMigratorError: "@
                    + p@ + " path not found"@,
                LibsqlDirMigratorError::InvalidMigrationPath(p) => r@ == "LibsqlDirMigratorError: "@
                    + p@ + " unsupported migration path provided"@,
                LibsqlDirMigratorError::ErrorWhileGettingSQLFiles(m) => r@
                    == "LibsqlDirMigratorError: Error occured while traversing migration folder | "@
                    + m@,
            },
    {
        match self {
            LibsqlDirMigratorError::BaseError(e) => e.message(),
            LibsqlDirMigratorError::MigrationDirNotFound(p) => String::from_str(
                "LibsqlDirMigratorError: ",
            ).concat(p.as_str()).concat(" path not found"),
            LibsqlDirMigratorError::InvalidMigrationPath(p) => String::from_str(
                "LibsqlDirMigratorError: ",
            ).concat(p.as_str()).concat(" unsupported migration path provided"),
            LibsqlDirMigratorError::ErrorWhileGettingSQLFiles(m) => String::from_str(
                "LibsqlDirMigratorError: Error occured while traversing migration folder | ",
            ).concat(m.as_str()),
        }
    }
}

impl LibsqlContentMigratorError {
    /// Human-readable description of the error.
    pub fn message(&self) -> (r: String)
        ensures
            match self {
                LibsqlContentMigratorError::BaseError(e) => r@ == e.message_spec(),
                LibsqlContentMigratorError::InvalidInput(m) => r@
                    == "LibsqlContentMigratorError: Invalid input | "@ + m@,
            },
    {
        match self {
            LibsqlContentMigratorError::BaseError(e) => e.message(),
            LibsqlContentMigratorError::InvalidInput(m) => String::from_str(
                "LibsqlContentMigratorError: Invalid input | ",
            ).concat(m.as_str()),
        }
    }
}

impl LibsqlRemoteMigratorError {
    /// Human-readable description of the error.
    pub fn message(&self) -> (r: String)
        ensures
            match self {
                LibsqlRemoteMigratorError::BaseError(e) => r@ == e.message_spec(),
                LibsqlRemoteMigratorError::ReqwestError(e) => r@ == "ReqwestError: "@ + e@,
                LibsqlRemoteMigratorError::MigrationUrlNotValid(u) => r@
                    == "LibsqlRemoteMigratorError: Invalid URL "@ + u@,
            },
    {
        match self {
            LibsqlRemoteMigratorError::BaseError(e) => e.message(),
            LibsqlRemoteMigratorError::ReqwestError(e) => String::from_str(
                "ReqwestError: ",
            ).concat(e.as_str()),
            LibsqlRemoteMigratorError::MigrationUrlNotValid(u) => String::from_str(
                "LibsqlRemoteMigratorError: Invalid URL ",
            ).concat(u.as_str()),
        }
    }
}

impl LibsqlMigratorBaseError {
    /// The text that `message` returns, as a spec-level value.
    pub open spec fn message_spec(&self) -> Seq<char> {
        match self {
            LibsqlMigratorBaseError::LibSqlError(e) => "LibSqlError: "@ + e@,
            LibsqlMigratorBaseError::MigrationFailed(m) => "LibsqlMigrationError: Migration failed | "@
                + m@,
        }
    }
}

impl From<LibsqlMigratorBaseError> for LibsqlDirMigratorError {
    fn from(value: LibsqlMigratorBaseError) -> LibsqlDirMigratorError {
        LibsqlDirMigratorError::BaseError(value)
    }
}

impl vstd::std_specs::convert::FromSpecImpl<LibsqlMigratorBaseError> for LibsqlDirMigratorError {
    open spec fn obeys_from_spec() -> bool {
        true
    }

    open spec fn from_spec(value: LibsqlMigratorBaseError) -> LibsqlDirMigratorError {
        LibsqlDirMigratorError::BaseError(value)
    }
}

impl From<LibsqlMigratorBaseError> for LibsqlContentMigratorError {
    fn from(value: LibsqlMigratorBaseError) -> LibsqlContentMigratorError {
        LibsqlContentMigratorError::BaseError(value)
    }
}

impl vstd::std_specs::convert::FromSpecImpl<LibsqlMigratorBaseError> for LibsqlContentMigratorError {
    open spec fn obeys_from_spec() -> bool {
        true
    }

    open spec fn from_spec(value: LibsqlMigratorBaseError) -> LibsqlContentMigratorError {
        LibsqlContentMigratorError::BaseError(value)
    }
}

impl From<LibsqlMigratorBaseError> for LibsqlRemoteMigratorError {
    fn from(value: LibsqlMigratorBaseError) -> LibsqlRemoteMigratorError {
        LibsqlRemoteMigratorError::BaseError(value)
    }
}

impl vstd::std_specs::convert::FromSpecImpl<LibsqlMigratorBaseError> for LibsqlRemoteMigratorError {
    open spec fn obeys_from_spec() -> bool {
        true
    }

    open spec fn from_spec(value: LibsqlMigratorBaseError) -> LibsqlRemoteMigratorError {
        LibsqlRemoteMigratorError::BaseError(value)
    }
}

} // verus!

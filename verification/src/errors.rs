//! The error kinds of the migration engine.  A step failure is fatal for the
//! migration in progress and is surfaced verbatim; nothing here retries.

use vstd::prelude::*;
use vstd::string::StringExecFns;

verus! {

/// Why a migration operation stopped.
#[derive(Debug, Clone, PartialEq, Eq)]
pub enum MigrateError {
    /// A version string could not be read, even after normalization.
    Parse(String),
    /// The backend failed to run a statement or to touch the version marker;
    /// the text is the backend's own diagnostic, passed on verbatim.
    Backend(String),
    /// The migration catalog is unusable: a record's version does not parse,
    /// or the records are not in strictly ascending version order.
    Catalog(String),
    /// An operation needed the store before any backend was attached.
    NotInitialized,
    /// No connection descriptor is available to build a backend from.
    NotConfigured,
}

impl MigrateError {
    /// A human-readable line for the application shell to show.
    pub fn message(&self) -> (r: String)
        ensures
            self matches MigrateError::Parse(s) ==> r@ == "malformed version string: "@ + s@,
            self matches MigrateError::Backend(s) ==> r@ == "backend error: "@ + s@,
            self matches MigrateError::Catalog(s) ==> r@ == "invalid migration catalog: "@ + s@,
            self matches MigrateError::NotInitialized ==> r@ == "database not initialized"@,
            self matches MigrateError::NotConfigured ==> r@ == "database not configured"@,
    {
        match self {
            MigrateError::Parse(s) => {
                let mut m = String::from_str("malformed version string: ");
                m.append(s.as_str());
                m
            },
            MigrateError::Backend(s) => {
                let mut m = String::from_str("backend error: ");
                m.append(s.as_str());
                m
            },
            MigrateError::Catalog(s) => {
                let mut m = String::from_str("invalid migration catalog: ");
                m.append(s.as_str());
                m
            },
            MigrateError::NotInitialized => String::from_str("database not initialized"),
            MigrateError::NotConfigured => String::from_str("database not configured"),
        }
    }
}

} // verus!

//! The pure half of the local embedded backend: the connection string, the
//! fixed marker queries, the column-type affinity rules, and how the marker
//! row's value is read back as text.  The pool and the statement execution
//! live in the shell.

use vstd::prelude::*;
use vstd::string::StrSliceExecFns;
use vstd::string::StringExecFns;

use crate::store::Row;
use crate::store::Scalar;
use crate::text::contains_ci;
use crate::text::contains_ci_str;
use crate::text::i64_to_string;
use crate::text::spec_i64_dec;

verus! {

/// The five storage classes a declared column type maps to.
#[derive(Debug, Clone, Copy, PartialEq, Eq, Structural)]
pub enum SqliteAffinity {
    Integer,
    Real,
    Text,
    Blob,
    Boolean,
}

/// The affinity a declared type name maps to, matching the name's fragments
/// ASCII-case-insensitively: INT wins, then the text fragments, then the
/// real ones, then BOOL, and anything else is a blob.
pub open spec fn spec_affinity_of(name: Seq<char>) -> SqliteAffinity {
    if contains_ci(name, "INT"@) {
        SqliteAffinity::Integer
    } else if contains_ci(name, "CHAR"@) || contains_ci(name, "TEXT"@) || contains_ci(
        name,
        "CLOB"@,
    ) {
        SqliteAffinity::Text
    } else if contains_ci(name, "REAL"@) || contains_ci(name, "FLOA"@) || contains_ci(
        name,
        "DOUB"@,
    ) {
        SqliteAffinity::Real
    } else if contains_ci(name, "BOOL"@) {
        SqliteAffinity::Boolean
    } else {
        SqliteAffinity::Blob
    }
}

impl SqliteAffinity {
    /// Classifies a declared column type name.
    pub fn from_type_name(name: &str) -> (r: SqliteAffinity)
        ensures
            r == spec_affinity_of(name@),
    {
        if contains_ci_str(name, "INT") {
            SqliteAffinity::Integer
        } else if contains_ci_str(name, "CHAR") || contains_ci_str(name, "TEXT")
            || contains_ci_str(name, "CLOB") {
            SqliteAffinity::Text
        } else if contains_ci_str(name, "REAL") || contains_ci_str(name, "FLOA")
            || contains_ci_str(name, "DOUB") {
            SqliteAffinity::Real
        } else if contains_ci_str(name, "BOOL") {
            SqliteAffinity::Boolean
        } else {
            SqliteAffinity::Blob
        }
    }
}

/// The connection string for a local database file, opened read-write and
/// created when missing.
pub fn sqlite_uri(path: &str) -> (r: String)
    ensures
        r@ == "sqlite:"@ + path@ + "?mode=rwc"@,
{
    let mut s = String::from_str("sqlite:");
    s.append(path);
    s.append("?mode=rwc");
    s
}

/// The probe that tells whether the reserved marker table exists yet.
pub fn marker_table_probe_sql() -> (r: &'static str)
    ensures
        r@ == "SELECT count(*) FROM sqlite_master WHERE type='table' AND name='_app_meta'"@,
{
    "SELECT count(*) FROM sqlite_master WHERE type='table' AND name='_app_meta'"
}

/// The query that reads the stored version marker.
pub fn marker_read_sql() -> (r: &'static str)
    ensures
        r@ == "SELECT version FROM _app_meta LIMIT 1"@,
{
    "SELECT version FROM _app_meta LIMIT 1"
}

/// The statement that overwrites the stored version marker, with the new
/// text bound as its one parameter.
pub fn marker_update_sql() -> (r: &'static str)
    ensures
        r@ == "UPDATE _app_meta SET version = ?"@,
{
    "UPDATE _app_meta SET version = ?"
}

/// What the marker row's value reads back as: text as it stands, an
/// integer in decimal, anything else as the fresh-store text.
pub open spec fn spec_marker_text_of_row(row: Row) -> Seq<char> {
    match row.spec_get("version"@) {
        Some(Scalar::Text(t)) => t@,
        Some(Scalar::Int(v)) => spec_i64_dec(v),
        _ => "0.0.0"@,
    }
}

/// Reads the stored version marker out of the marker row.
pub fn marker_text_of_row(row: &Row) -> (r: String)
    ensures
        r@ == spec_marker_text_of_row(*row),
{
    match row.get("version") {
        Some(Scalar::Text(t)) => t.clone(),
        Some(Scalar::Int(v)) => i64_to_string(*v),
        _ => String::from_str("0.0.0"),
    }
}

/// The diagnostic for a store whose directory could not be created.
pub fn dir_error_message(e: &str) -> (r: String)
    ensures
        r@ == "Failed to create directory: "@ + e@,
{
    let mut s = String::from_str("Failed to create directory: ");
    s.append(e);
    s
}

/// The diagnostic for a store that refused the connection.
pub fn connect_error_message(e: &str) -> (r: String)
    ensures
        r@ == "SQLite connection failed: "@ + e@,
{
    let mut s = String::from_str("SQLite connection failed: ");
    s.append(e);
    s
}

} // verus!

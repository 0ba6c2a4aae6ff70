//! The pure half of the remote HTTP backend: the endpoint URLs, the parsed
//! shape of the JSON reply envelope, and every decision taken on it — which
//! replies are failures, what the diagnostic says, and how the marker is
//! read out of the result rows.  The HTTP client lives in the shell and
//! hands the parsed envelope over as plain values.

use vstd::prelude::*;
use vstd::string::StrSliceExecFns;
use vstd::string::StringExecFns;

use crate::store::Row;
use crate::store::Scalar;
use crate::text::i64_to_string;
use crate::text::spec_i64_dec;

verus! {

/// One error of a failed reply envelope.
#[derive(Debug, PartialEq)]
pub struct D1Error {
    pub message: String,
}

impl Clone for D1Error {
    fn clone(&self) -> (r: D1Error)
        ensures
            r == *self,
    {
        D1Error { message: self.message.clone() }
    }
}

/// The rows of one executed statement.
#[derive(Debug, PartialEq)]
pub struct D1Result {
    pub results: Vec<Row>,
}

/// The reply envelope: per-statement results, a success flag, and the
/// errors that explain a failure.
#[derive(Debug, PartialEq)]
pub struct D1Response {
    pub result: Option<Vec<D1Result>>,
    pub success: bool,
    pub errors: Option<Vec<D1Error>>,
}

/// The query endpoint of a database.
pub fn d1_query_url(account_id: &str, database_id: &str) -> (r: String)
    ensures
        r@ == "https://api.cloudflare.com/client/v4/accounts/"@ + account_id@ + "/d1/database/"@
            + database_id@ + "/query"@,
{
    let mut s = String::from_str("https://api.cloudflare.com/client/v4/accounts/");
    s.append(account_id);
    s.append("/d1/database/");
    s.append(database_id);
    s.append("/query");
    s
}

/// The metadata endpoint of a database, probed by the status check.
pub fn d1_database_url(account_id: &str, database_id: &str) -> (r: String)
    ensures
        r@ == "https://api.cloudflare.com/client/v4/accounts/"@ + account_id@ + "/d1/database/"@
            + database_id@,
{
    let mut s = String::from_str("https://api.cloudflare.com/client/v4/accounts/");
    s.append(account_id);
    s.append("/d1/database/");
    s.append(database_id);
    s
}

/// The diagnostic for a reply that did not come back with a success status.
pub fn d1_api_error_message(status: &str, body: &str) -> (r: String)
    ensures
        r@ == "D1 API Error ("@ + status@ + "): "@ + body@,
{
    let mut s = String::from_str("D1 API Error (");
    s.append(status);
    s.append("): ");
    s.append(body);
    s
}

/// The diagnostic for a status probe that failed.
pub fn d1_check_failed_message(status: &str, body: &str) -> (r: String)
    ensures
        r@ == "D1 connection failed ("@ + status@ + "): "@ + body@,
{
    let mut s = String::from_str("D1 connection failed (");
    s.append(status);
    s.append("): ");
    s.append(body);
    s
}

/// What a failed envelope reports: its first error's message, or a fixed
/// text when it carries none.
pub open spec fn spec_failure_detail(errors: Option<Vec<D1Error>>) -> Seq<char> {
    match errors {
        Some(es) => if es@.len() > 0 {
            es@[0].message@
        } else {
            "Unknown D1 error"@
        },
        None => "Unknown D1 error"@,
    }
}

/// Judges a parsed reply envelope: a reply whose success flag is down is a
/// failure carrying its first error's message.
pub fn d1_envelope_outcome(resp: D1Response) -> (r: Result<D1Response, String>)
    ensures
        resp.success ==> r == Ok::<D1Response, String>(resp),
        !resp.success ==> (r matches Err(m) && m@ == "D1 Query Failed: "@ + spec_failure_detail(
            resp.errors,
        )),
{
    if resp.success {
        Ok(resp)
    } else {
        let mut m = String::from_str("D1 Query Failed: ");
        match &resp.errors {
            Some(es) => {
                if es.len() > 0 {
                    m.append(es[0].message.as_str());
                } else {
                    m.append("Unknown D1 error");
                }
            },
            None => {
                m.append("Unknown D1 error");
            },
        }
        Err(m)
    }
}

/// The first row of the first statement's results, where there is one.
pub open spec fn spec_first_row(resp: D1Response) -> Option<Row> {
    match resp.result {
        Some(rs) => if rs@.len() > 0 && rs@[0].results@.len() > 0 {
            Some(rs@[0].results@[0])
        } else {
            None
        },
        None => None,
    }
}

/// What the table-existence probe counted: the `count` column of the first
/// row, read as a non-negative number, or zero where anything is missing.
pub open spec fn spec_count_of(resp: D1Response) -> u64 {
    match spec_first_row(resp) {
        Some(row) => match row.spec_get("count"@) {
            Some(Scalar::Int(v)) => if v >= 0 {
                v as u64
            } else {
                0
            },
            _ => 0,
        },
        None => 0,
    }
}

/// Reads the table-existence probe's count out of a reply.
pub fn d1_count_of(resp: &D1Response) -> (r: u64)
    ensures
        r == spec_count_of(*resp),
{
    match &resp.result {
        Some(rs) => {
            if rs.len() > 0 && rs[0].results.len() > 0 {
                match rs[0].results[0].get("count") {
                    Some(Scalar::Int(v)) => {
                        let v = *v;
                        if v >= 0 {
                            v as u64
                        } else {
                            0
                        }
                    },
                    _ => 0,
                }
            } else {
                0
            }
        },
        None => 0,
    }
}

/// What the marker read yields: the `version` column of the first row —
/// text as it stands, a number in decimal, anything else as the
/// fresh-store text.
pub open spec fn spec_version_of(resp: D1Response) -> Seq<char> {
    match spec_first_row(resp) {
        Some(row) => match row.spec_get("version"@) {
            Some(Scalar::Text(t)) => t@,
            Some(Scalar::Int(v)) => spec_i64_dec(v),
            Some(Scalar::Real(t)) => t@,
            _ => "0.0.0"@,
        },
        None => "0.0.0"@,
    }
}

/// Reads the stored version marker out of a reply.
pub fn d1_version_of(resp: &D1Response) -> (r: String)
    ensures
        r@ == spec_version_of(*resp),
{
    match &resp.result {
        Some(rs) => {
            if rs.len() > 0 && rs[0].results.len() > 0 {
                match rs[0].results[0].get("version") {
                    Some(Scalar::Text(t)) => t.clone(),
                    Some(Scalar::Int(v)) => i64_to_string(*v),
                    Some(Scalar::Real(t)) => t.clone(),
                    _ => String::from_str("0.0.0"),
                }
            } else {
                String::from_str("0.0.0")
            }
        },
        None => String::from_str("0.0.0"),
    }
}

/// The statement that overwrites the stored version marker on the remote
/// store, with the new text inlined.
pub fn marker_update_sql_inline(version: &str) -> (r: String)
    ensures
        r@ == "UPDATE _app_meta SET version = '"@ + version@ + "'"@,
{
    let mut s = String::from_str("UPDATE _app_meta SET version = '");
    s.append(version);
    s.append("'");
    s
}

} // verus!

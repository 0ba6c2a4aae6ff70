//! Connectivity status: the two collaborator services, the shape of a full
//! check's result, and the decisions of the periodic poller.  The network
//! calls themselves live in the shell; everything that can be decided from
//! plain values is decided here.

use vstd::prelude::*;
use vstd::string::StrSliceExecFns;
use vstd::string::StringExecFns;

use crate::config::AppConfig;
use crate::config::BookSource;
use crate::config::DatabaseConnection;

verus! {

/// The state of one collaborator service.
#[derive(Debug, PartialEq)]
pub enum ServiceStatus {
    Connected,
    Disconnected(String),
    NotConfigured,
    Testing,
}

impl Clone for ServiceStatus {
    fn clone(&self) -> (r: ServiceStatus)
        ensures
            r == *self,
    {
        match self {
            ServiceStatus::Connected => ServiceStatus::Connected,
            ServiceStatus::Disconnected(m) => ServiceStatus::Disconnected(m.clone()),
            ServiceStatus::NotConfigured => ServiceStatus::NotConfigured,
            ServiceStatus::Testing => ServiceStatus::Testing,
        }
    }
}

/// The result of one full check: book storage and database, side by side.
#[derive(Debug, PartialEq)]
pub struct ConnectionStatus {
    pub r2: ServiceStatus,
    pub d1: ServiceStatus,
}

impl Clone for ConnectionStatus {
    fn clone(&self) -> (r: ConnectionStatus)
        ensures
            r == *self,
    {
        ConnectionStatus { r2: self.r2.clone(), d1: self.d1.clone() }
    }
}

/// Combines the per-service probe results into one report: a service that
/// is not configured is reported as such, never probed.
pub fn run_check_outcome(
    book_source: Option<ServiceStatus>,
    database: Option<ServiceStatus>,
) -> (r: ConnectionStatus)
    ensures
        r.r2 == match book_source {
            Some(s) => s,
            None => ServiceStatus::NotConfigured,
        },
        r.d1 == match database {
            Some(s) => s,
            None => ServiceStatus::NotConfigured,
        },
{
    ConnectionStatus {
        r2: match book_source {
            Some(s) => s,
            None => ServiceStatus::NotConfigured,
        },
        d1: match database {
            Some(s) => s,
            None => ServiceStatus::NotConfigured,
        },
    }
}

/// Whether the periodic poller has anything to probe: auto-check is on and
/// at least one remote collaborator is configured.
pub fn wants_periodic_check(config: &AppConfig) -> (r: bool)
    ensures
        r == (config.system.enable_auto_check && ((config.book_source matches Some(
            BookSource::CloudflareR2 { .. },
        )) || (config.database matches Some(DatabaseConnection::CloudflareD1 { .. })))),
{
    let has_r2 = match &config.book_source {
        Some(BookSource::CloudflareR2 { .. }) => true,
        _ => false,
    };
    let has_d1 = match &config.database {
        Some(DatabaseConnection::CloudflareD1 { .. }) => true,
        _ => false,
    };
    config.system.enable_auto_check && (has_r2 || has_d1)
}

/// How long the poller sleeps before its next look: the configured interval
/// where there is something to probe, otherwise one minute before it
/// re-reads the configuration.
pub fn monitor_wait_secs(config: &AppConfig) -> (r: u64)
    ensures
        (config.system.enable_auto_check && ((config.book_source matches Some(
            BookSource::CloudflareR2 { .. },
        )) || (config.database matches Some(DatabaseConnection::CloudflareD1 { .. })))) ==> r
            == config.system.check_interval_mins as u64 * 60,
        !(config.system.enable_auto_check && ((config.book_source matches Some(
            BookSource::CloudflareR2 { .. },
        )) || (config.database matches Some(DatabaseConnection::CloudflareD1 { .. })))) ==> r
            == 60,
{
    if wants_periodic_check(config) {
        (config.system.check_interval_mins as u64) * 60
    } else {
        60
    }
}

/// Turns a probe result into the connection-test reply the shell shows:
/// success text for a live connection, the verbatim diagnostic for a dead
/// one.
pub fn connection_test_outcome(status: ServiceStatus) -> (r: Result<String, String>)
    ensures
        status == ServiceStatus::Connected ==> (r matches Ok(t) && t@ == "Connection successful"@),
        status matches ServiceStatus::Disconnected(e) ==> (r matches Err(t) && t@ == e@),
        status == ServiceStatus::NotConfigured ==> (r matches Err(t) && t@
            == "Database not configured"@),
        status == ServiceStatus::Testing ==> (r matches Ok(t) && t@
            == "Connection test in progress"@),
{
    match status {
        ServiceStatus::Connected => Ok(String::from_str("Connection successful")),
        ServiceStatus::Disconnected(e) => Err(e),
        ServiceStatus::NotConfigured => Err(String::from_str("Database not configured")),
        ServiceStatus::Testing => Ok(String::from_str("Connection test in progress")),
    }
}

} // verus!

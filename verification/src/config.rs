//! The application configuration model: where books come from, which store
//! the schema lives in, and the system-wide preferences, with the defaults
//! each field falls back to.  Loading and saving the configuration file is
//! the shell's job; the model and its defaults are fixed here.

use vstd::prelude::*;
use vstd::string::StringExecFns;

verus! {

/// Where book content comes from: a local directory, or a remote bucket
/// reached with account credentials.
#[derive(Debug, PartialEq)]
pub enum BookSource {
    Local { path: String },
    CloudflareR2 {
        account_id: String,
        bucket_name: String,
        access_key_id: String,
        secret_access_key: String,
        public_url: Option<String>,
    },
}

/// The discriminated connection descriptor a concrete backend is built
/// from: a local database file, or a remote account/database/token triple.
#[derive(Debug, PartialEq)]
pub enum DatabaseConnection {
    SQLite { path: String },
    CloudflareD1 { account_id: String, database_id: String, api_token: String },
}

/// System-wide preferences.
#[derive(Debug, PartialEq)]
pub struct SystemConfig {
    pub language: String,
    pub theme: String,
    pub log_level: String,
    pub enable_auto_check: bool,
    pub check_interval_mins: u32,
}

/// The default interface language.
pub fn default_language() -> (r: String)
    ensures
        r@ == "en"@,
{
    String::from_str("en")
}

/// The default theme.
pub fn default_theme() -> (r: String)
    ensures
        r@ == "system"@,
{
    String::from_str("system")
}

/// The default log level.
pub fn default_log_level() -> (r: String)
    ensures
        r@ == "info"@,
{
    String::from_str("info")
}

/// Whether the periodic connectivity check is on by default.
pub fn default_enable_auto_check() -> (r: bool)
    ensures
        r == true,
{
    true
}

/// The default connectivity-check interval, in minutes.
pub fn default_check_interval() -> (r: u32)
    ensures
        r == 5,
{
    5
}

impl Clone for SystemConfig {
    fn clone(&self) -> (r: SystemConfig)
        ensures
            r == *self,
    {
        SystemConfig {
            language: self.language.clone(),
            theme: self.theme.clone(),
            log_level: self.log_level.clone(),
            enable_auto_check: self.enable_auto_check,
            check_interval_mins: self.check_interval_mins,
        }
    }
}

impl Default for SystemConfig {
    /// The defaults every missing preference falls back to.
    fn default() -> (r: SystemConfig)
        ensures
            r.language@ == "en"@,
            r.theme@ == "system"@,
            r.log_level@ == "info"@,
            r.enable_auto_check == true,
            r.check_interval_mins == 5,
    {
        SystemConfig {
            language: default_language(),
            theme: default_theme(),
            log_level: default_log_level(),
            enable_auto_check: default_enable_auto_check(),
            check_interval_mins: default_check_interval(),
        }
    }
}

impl Clone for BookSource {
    fn clone(&self) -> (r: BookSource)
        ensures
            r == *self,
    {
        match self {
            BookSource::Local { path } => BookSource::Local { path: path.clone() },
            BookSource::CloudflareR2 {
                account_id,
                bucket_name,
                access_key_id,
                secret_access_key,
                public_url,
            } => BookSource::CloudflareR2 {
                account_id: account_id.clone(),
                bucket_name: bucket_name.clone(),
                access_key_id: access_key_id.clone(),
                secret_access_key: secret_access_key.clone(),
                public_url: match public_url {
                    Some(u) => Some(u.clone()),
                    None => None,
                },
            },
        }
    }
}

impl Clone for DatabaseConnection {
    fn clone(&self) -> (r: DatabaseConnection)
        ensures
            r == *self,
    {
        match self {
            DatabaseConnection::SQLite { path } => DatabaseConnection::SQLite {
                path: path.clone(),
            },
            DatabaseConnection::CloudflareD1 { account_id, database_id, api_token } => {
                DatabaseConnection::CloudflareD1 {
                    account_id: account_id.clone(),
                    database_id: database_id.clone(),
                    api_token: api_token.clone(),
                }
            },
        }
    }
}

/// The whole configuration: preferences plus the two optional collaborator
/// descriptors.
#[derive(Debug, PartialEq)]
pub struct AppConfig {
    pub system: SystemConfig,
    pub book_source: Option<BookSource>,
    pub database: Option<DatabaseConnection>,
}

impl Clone for AppConfig {
    fn clone(&self) -> (r: AppConfig)
        ensures
            r == *self,
    {
        AppConfig {
            system: self.system.clone(),
            book_source: match &self.book_source {
                Some(s) => Some(s.clone()),
                None => None,
            },
            database: match &self.database {
                Some(d) => Some(d.clone()),
                None => None,
            },
        }
    }
}

impl AppConfig {
    /// A fresh configuration: default preferences, no book source, no
    /// database.
    pub fn new() -> (r: AppConfig)
        ensures
            r.system.language@ == "en"@,
            r.system.theme@ == "system"@,
            r.system.log_level@ == "info"@,
            r.system.enable_auto_check == true,
            r.system.check_interval_mins == 5,
            r.book_source is None,
            r.database is None,
    {
        AppConfig { system: SystemConfig::default(), book_source: None, database: None }
    }
}

impl Default for AppConfig {
    /// Same as `AppConfig::new`.
    fn default() -> (r: AppConfig)
        ensures
            r.system.language@ == "en"@,
            r.system.theme@ == "system"@,
            r.system.log_level@ == "info"@,
            r.system.enable_auto_check == true,
            r.system.check_interval_mins == 5,
            r.book_source is None,
            r.database is None,
    {
        AppConfig::new()
    }
}

/// The in-process configuration cache.  The shell keeps one of these behind
/// its read/write lock; the holder itself is plain state.
pub struct ConfigState {
    pub config: AppConfig,
}

impl ConfigState {
    pub fn new(config: AppConfig) -> (r: ConfigState)
        ensures
            r.config == config,
    {
        ConfigState { config }
    }

    /// Replaces the cached configuration.
    pub fn set(&mut self, config: AppConfig)
        ensures
            final(self).config == config,
    {
        self.config = config;
    }

    /// A copy of the cached configuration.
    pub fn snapshot(&self) -> (r: AppConfig)
        ensures
            r == self.config,
    {
        self.config.clone()
    }
}

/// Loading and saving the configuration document, for the shell to
/// implement over its file format.
pub trait AppConfigExt: Sized {
    /// Reads a configuration from the file at `path`; a missing file yields
    /// the defaults.
    fn load_from_path(path: &str) -> Result<AppConfig, String>;

    /// Writes the configuration to the file at `path`, creating parent
    /// directories as needed.
    fn save_to_path(&self, path: &str) -> Result<(), String>;
}

} // verus!

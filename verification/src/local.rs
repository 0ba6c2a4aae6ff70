//! The application's local directories and the path arithmetic over them.
//! The directories are an explicitly owned handle filled in once at
//! startup; reading them before that yields an error instead of a guess.
//! All actual file traffic stays in the shell.

use vstd::prelude::*;
use vstd::string::StrSliceExecFns;
use vstd::string::StringExecFns;

use crate::text::trim_leading;
use crate::text::trim_leading_str;

verus! {

/// The data and cache directories of this installation, set once during
/// startup and handed to whoever needs them.
pub struct AppDirs {
    pub data_dir: Option<String>,
    pub cache_dir: Option<String>,
}

impl AppDirs {
    /// A handle with neither directory set yet.
    pub fn new() -> (r: AppDirs)
        ensures
            r.data_dir is None,
            r.cache_dir is None,
    {
        AppDirs { data_dir: None, cache_dir: None }
    }
}

/// Sets the data directory; once set, later calls change nothing.
pub fn init_app_data_dir(dirs: &mut AppDirs, path: String)
    ensures
        old(dirs).data_dir is None ==> final(dirs).data_dir == Some(path),
        old(dirs).data_dir is Some ==> final(dirs).data_dir == old(dirs).data_dir,
        final(dirs).cache_dir == old(dirs).cache_dir,
{
    if dirs.data_dir.is_none() {
        dirs.data_dir = Some(path);
    }
}

/// Sets the cache directory; once set, later calls change nothing.
pub fn init_app_cache_dir(dirs: &mut AppDirs, path: String)
    ensures
        old(dirs).cache_dir is None ==> final(dirs).cache_dir == Some(path),
        old(dirs).cache_dir is Some ==> final(dirs).cache_dir == old(dirs).cache_dir,
        final(dirs).data_dir == old(dirs).data_dir,
{
    if dirs.cache_dir.is_none() {
        dirs.cache_dir = Some(path);
    }
}

/// The data directory, or an error while it has not been set.
pub fn get_app_data_dir(dirs: &AppDirs) -> (r: Result<&String, String>)
    ensures
        dirs.data_dir matches Some(d) ==> (r matches Ok(p) && p == d),
        dirs.data_dir is None ==> (r matches Err(e) && e@
            == "application data directory is not initialized"@),
{
    match &dirs.data_dir {
        Some(d) => Ok(d),
        None => Err(String::from_str("application data directory is not initialized")),
    }
}

/// The cache directory, or an error while it has not been set.
pub fn get_app_cache_dir(dirs: &AppDirs) -> (r: Result<&String, String>)
    ensures
        dirs.cache_dir matches Some(d) ==> (r matches Ok(p) && p == d),
        dirs.cache_dir is None ==> (r matches Err(e) && e@
            == "application cache directory is not initialized"@),
{
    match &dirs.cache_dir {
        Some(d) => Ok(d),
        None => Err(String::from_str("application cache directory is not initialized")),
    }
}

/// A stored key made safe to join under a base directory: leading
/// separators are stripped so the key can never name an absolute path.
pub fn safe_key<'a>(key: &'a str) -> (r: &'a str)
    ensures
        r@ == trim_leading(key@, '/'),
{
    trim_leading_str(key, '/')
}

/// The local path a key lands at under a base directory.
pub fn join_under(dir: &str, key: &str) -> (r: String)
    ensures
        r@ == dir@ + "/"@ + trim_leading(key@, '/'),
{
    let mut s = dir.to_owned();
    s.append("/");
    s.append(safe_key(key));
    s
}

/// Where the default local database file lives: inside the data directory.
pub fn get_default_sqlite_path(dirs: &AppDirs) -> (r: Result<String, String>)
    ensures
        dirs.data_dir matches Some(d) ==> (r matches Ok(p) && p@ == d@ + "/english-in-use.db"@),
        dirs.data_dir is None ==> r is Err,
{
    match get_app_data_dir(dirs) {
        Ok(d) => {
            let mut s = d.clone();
            s.append("/english-in-use.db");
            Ok(s)
        },
        Err(e) => Err(e),
    }
}

/// The name of the sentinel file that records whether the first migration
/// run has ever completed; it lives in the data directory, outside the
/// schema itself.
pub fn init_flag_file_name() -> (r: &'static str)
    ensures
        r@ == ".db_initialized"@,
{
    ".db_initialized"
}

/// Where the initialization sentinel lives, given the data directory.
pub fn init_flag_path(data_dir: &str) -> (r: String)
    ensures
        r@ == data_dir@ + "/"@ + ".db_initialized"@,
{
    let mut s = data_dir.to_owned();
    s.append("/");
    s.append(init_flag_file_name());
    s
}

} // verus!

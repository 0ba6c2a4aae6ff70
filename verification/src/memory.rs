//! A verified in-memory backend.  It keeps the executed log and the version
//! marker as plain values, and can be told to fail a chosen statement, which
//! makes the runner's abort behaviour testable without a real store.

use vstd::prelude::*;
use vstd::string::StrSliceExecFns;
use vstd::string::StringExecFns;

use crate::store::Backend;
use crate::store::Row;
use crate::store::StoreModel;

verus! {

/// A fake store for tests and dry runs: statements land in a growing log,
/// the marker is a plain string, and `fail_execute_at`, when set, makes the
/// execute call with that log position fail.
pub struct MemoryBackend {
    log: Vec<String>,
    version: String,
    fail_execute_at: Option<usize>,
}

impl MemoryBackend {
    /// A fresh, empty store: nothing executed, marker reading "0.0.0".
    pub fn new() -> (r: MemoryBackend)
        ensures
            r.model().log == Seq::<Seq<char>>::empty(),
            r.model().version == "0.0.0"@,
    {
        let r = MemoryBackend { log: Vec::new(), version: String::from_str("0.0.0"), fail_execute_at: None };
        proof {
            assert(r.log.deep_view() =~= Seq::<Seq<char>>::empty());
        }
        r
    }

    /// A fresh store whose `k`-th execute call (counting from zero) will
    /// fail.
    pub fn failing_at(k: usize) -> (r: MemoryBackend)
        ensures
            r.model().log == Seq::<Seq<char>>::empty(),
            r.model().version == "0.0.0"@,
    {
        let r = MemoryBackend {
            log: Vec::new(),
            version: String::from_str("0.0.0"),
            fail_execute_at: Some(k),
        };
        proof {
            assert(r.log.deep_view() =~= Seq::<Seq<char>>::empty());
        }
        r
    }

    /// The statements executed so far, in order.
    pub fn statements(&self) -> (r: &Vec<String>)
        ensures
            r@.len() == self.model().log.len(),
            forall|i: int| 0 <= i < r@.len() ==> #[trigger] r@[i]@ == self.model().log[i],
    {
        &self.log
    }

    /// The current marker text.
    pub fn version_text(&self) -> (r: &String)
        ensures
            r@ == self.model().version,
    {
        &self.version
    }
}

impl Backend for MemoryBackend {
    closed spec fn model(&self) -> StoreModel {
        StoreModel { log: self.log.deep_view(), version: self.version@ }
    }

    fn execute(&mut self, statement: &str) -> (r: Result<(), String>) {
        match self.fail_execute_at {
            Some(k) if k == self.log.len() => Err(String::from_str("statement refused")),
            _ => {
                self.log.push(statement.to_owned());
                proof {
                    assert(self.log.deep_view() =~= old(self).log.deep_view().push(statement@));
                }
                Ok(())
            },
        }
    }

    fn query(&self, _statement: &str) -> (r: Result<Vec<Row>, String>) {
        Ok(Vec::new())
    }

    fn get_version(&self) -> (r: Result<String, String>) {
        Ok(self.version.clone())
    }

    fn set_version(&mut self, version: &str) -> (r: Result<(), String>) {
        self.version = version.to_owned();
        proof {
            assert(self.log.deep_view() =~= old(self).log.deep_view());
        }
        Ok(())
    }
}

} // verus!

//! The backend abstraction: the capability interface any storage engine must
//! satisfy, and the abstract store model that the migration runner's
//! contracts speak of.

use vstd::prelude::*;
use vstd::string::StrSliceExecFns;

use crate::text::str_eq;

verus! {

/// The store as the runner sees it: the statements that the backend has
/// reported as successfully executed, in order, and the text of the stored
/// version marker (read as "0.0.0" while no marker exists).
#[verifier::ext_equal]
pub struct StoreModel {
    pub log: Seq<Seq<char>>,
    pub version: Seq<char>,
}

/// One dynamically-typed scalar of a result row: integer, real, text, or
/// boolean, or nothing.  A real is carried as its decimal text — the library
/// passes it through but never computes with it.
#[derive(Debug, Clone, PartialEq, Eq)]
pub enum Scalar {
    Null,
    Int(i64),
    Real(String),
    Text(String),
    Bool(bool),
}

/// What looking a name up among columns yields: the value of the first
/// column with that name.
pub open spec fn spec_column_lookup(cols: Seq<(String, Scalar)>, name: Seq<char>) -> Option<
    Scalar,
>
    decreases cols.len(),
{
    if cols.len() == 0 {
        None
    } else if cols[0].0@ == name {
        Some(cols[0].1)
    } else {
        spec_column_lookup(cols.drop_first(), name)
    }
}

/// One result row: a mapping from column name to a scalar value.
#[derive(Debug, Clone, PartialEq, Eq)]
pub struct Row {
    pub columns: Vec<(String, Scalar)>,
}

impl Row {
    /// The value this row holds under `name`.
    pub open spec fn spec_get(&self, name: Seq<char>) -> Option<Scalar> {
        spec_column_lookup(self.columns@, name)
    }

    /// Looks a column up by name.
    pub fn get(&self, name: &str) -> (r: Option<&Scalar>)
        ensures
            match r {
                Some(v) => self.spec_get(name@) == Some(*v),
                None => self.spec_get(name@) is None,
            },
    {
        let n = self.columns.len();
        let mut i: usize = 0;
        proof {
            assert(self.columns@.subrange(0, n as int) =~= self.columns@);
        }
        while i < n
            invariant
                n == self.columns@.len(),
                0 <= i <= n,
                spec_column_lookup(self.columns@, name@) == spec_column_lookup(
                    self.columns@.subrange(i as int, n as int),
                    name@,
                ),
            decreases n - i,
        {
            proof {
                assert(self.columns@.subrange(i as int, n as int).drop_first()
                    =~= self.columns@.subrange(i as int + 1, n as int));
                assert(self.columns@.subrange(i as int, n as int)[0] == self.columns@[i as int]);
            }
            if str_eq(self.columns[i].0.as_str(), name) {
                return Some(&self.columns[i].1);
            }
            i = i + 1;
        }
        proof {
            assert(self.columns@.subrange(n as int, n as int) =~= Seq::<(String, Scalar)>::empty());
        }
        None
    }
}

/// The fresh-store reading: while the reserved marker table does not exist
/// (its existence probe counted zero), the version reads as "0.0.0" and the
/// marker row is not consulted at all — absence is a valid, expected state,
/// not an error.
pub fn absent_marker_version(marker_tables: u64) -> (r: Option<&'static str>)
    ensures
        marker_tables == 0 ==> (r matches Some(t) && t@ == "0.0.0"@),
        marker_tables > 0 ==> r is None,
{
    if marker_tables == 0 {
        Some("0.0.0")
    } else {
        None
    }
}

/// The capability interface of a storage engine.  The two concrete engines
/// of the application — a local embedded database behind a connection pool,
/// and a remote HTTP query endpoint — live in the unverified shell and
/// implement this trait there; the verified in-memory backend implements it
/// here.
///
/// The model is an interface-level abstraction: `log` records the statements
/// the backend has reported successful, `version` the stored marker text.
/// An implementation must keep `get_version` consistent with `set_version`,
/// and the statements the runner hands to `execute` never touch the reserved
/// marker row themselves.
pub trait Backend: Sized {
    /// The abstract state this backend stands for.  An implementation that
    /// does not give it a meaning leaves it arbitrary, and the runner's
    /// guarantees then say nothing concrete about that implementation.
    open spec fn model(&self) -> StoreModel {
        vstd::pervasive::arbitrary()
    }

    /// Runs one statement with no expected result rows.  On success the
    /// statement is appended to the executed log; on failure the store is
    /// not credited with it, and the version marker is untouched either way.
    fn execute(&mut self, statement: &str) -> (r: Result<(), String>)
        ensures
            final(self).model().version == old(self).model().version,
            r is Ok ==> final(self).model().log == old(self).model().log.push(statement@),
            r is Err ==> final(self).model().log == old(self).model().log,
    ;

    /// Runs a read statement and returns its rows.  Reading never changes
    /// the store.
    fn query(&self, statement: &str) -> (r: Result<Vec<Row>, String>);

    /// Reads the stored version marker's text; a store without a marker
    /// reads as "0.0.0", which is a valid state, not an error.
    fn get_version(&self) -> (r: Result<String, String>)
        ensures
            r matches Ok(v) ==> v@ == self.model().version,
    ;

    /// Overwrites the stored version marker.
    fn set_version(&mut self, version: &str) -> (r: Result<(), String>)
        ensures
            final(self).model().log == old(self).model().log,
            r is Ok ==> final(self).model().version == version@,
            r is Err ==> final(self).model().version == old(self).model().version,
    ;
}

} // verus!

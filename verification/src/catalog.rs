//! The migration catalog: an ordered, immutable list of migration records,
//! each carrying a version, an "up" step and a "down" step.  Both traversal
//! directions of the runner lean on the list being strictly ascending by
//! normalized version, so a list that is not is rejected outright.

use vstd::prelude::*;
use vstd::string::StrSliceExecFns;
use vstd::string::StringExecFns;

use crate::errors::MigrateError;
use crate::version::Version;
use crate::version::normalize_version;
use crate::version::parse_version;
use crate::version::spec_normalize;
use crate::version::spec_parse_version;

verus! {

/// One migration record: a version, the statement text that brings a store
/// up to it, and the statement text that takes the store back down below it.
#[derive(Debug, Clone, Copy)]
pub struct Migration {
    pub version: &'static str,
    pub up: &'static str,
    pub down: &'static str,
}

/// The version a record is filed under, read through the version utility.
pub open spec fn record_version(m: Migration) -> Option<Version> {
    spec_parse_version(spec_normalize(m.version@))
}

/// Every record's version parses.
pub open spec fn catalog_versions_parse(cat: Seq<Migration>) -> bool {
    forall|i: int| 0 <= i < cat.len() ==> #[trigger] record_version(cat[i]) is Some
}

/// The parsed version of the record at `i`.
pub open spec fn cat_ver(cat: Seq<Migration>, i: int) -> Version {
    record_version(cat[i])->0
}

/// The records stand in strictly ascending version order.
pub open spec fn catalog_sorted(cat: Seq<Migration>) -> bool {
    forall|i: int, j: int|
        0 <= i < j < cat.len() ==> #[trigger] cat_ver(cat, i).spec_lt(#[trigger] cat_ver(cat, j))
}

/// A usable catalog: every version parses and the order is strictly
/// ascending.
pub open spec fn catalog_wf(cat: Seq<Migration>) -> bool {
    catalog_versions_parse(cat) && catalog_sorted(cat)
}

/// Strict ascent of neighbours carries to any pair, by transitivity.
proof fn lemma_sorted_from_adjacent(cat: Seq<Migration>, i: int, j: int)
    requires
        forall|k: int| 0 <= k < cat.len() - 1 ==> (#[trigger] cat_ver(cat, k)).spec_lt(
            cat_ver(cat, k + 1),
        ),
        0 <= i < j < cat.len(),
    ensures
        cat_ver(cat, i).spec_lt(cat_ver(cat, j)),
    decreases j - i,
{
    if j > i + 1 {
        lemma_sorted_from_adjacent(cat, i, j - 1);
        assert((cat_ver(cat, j - 1)).spec_lt(cat_ver(cat, (j - 1) + 1)));
    }
}

/// Accepts a catalog exactly when it is usable: every record's version
/// parses after normalization and the records ascend strictly.
pub fn check_catalog(cat: &Vec<Migration>) -> (r: Result<(), MigrateError>)
    ensures
        r is Ok <==> catalog_wf(cat@),
        r is Err ==> r->Err_0 matches MigrateError::Catalog(_),
{
    let n = cat.len();
    let mut i: usize = 0;
    let mut prev: Option<Version> = None;
    while i < n
        invariant
            n == cat@.len(),
            0 <= i <= n,
            forall|k: int| 0 <= k < i ==> #[trigger] record_version(cat@[k]) is Some,
            forall|k: int| 0 <= k < i - 1 ==> (#[trigger] cat_ver(cat@, k)).spec_lt(
                cat_ver(cat@, k + 1),
            ),
            i > 0 ==> prev == Some(cat_ver(cat@, i - 1)),
            i == 0 ==> prev is None,
        decreases n - i,
    {
        let normalized = normalize_version(cat[i].version);
        let v = match parse_version(normalized.as_str()) {
            Some(v) => v,
            None => {
                proof {
                    assert(record_version(cat@[i as int]) is None);
                    assert(!catalog_versions_parse(cat@));
                }
                return Err(
                    MigrateError::Catalog(String::from_str("a record's version does not parse")),
                );
            },
        };
        match &prev {
            Some(p) => {
                if !p.lt(&v) {
                    proof {
                        assert(!(cat_ver(cat@, i as int - 1)).spec_lt(cat_ver(cat@, i as int)));
                        assert(!catalog_sorted(cat@));
                    }
                    return Err(
                        MigrateError::Catalog(
                            String::from_str("records are not strictly ascending by version"),
                        ),
                    );
                }
            },
            None => {},
        }
        prev = Some(v);
        i = i + 1;
    }
    proof {
        assert forall|a: int, b: int| 0 <= a < b < cat@.len() implies #[trigger] cat_ver(
            cat@,
            a,
        ).spec_lt(#[trigger] cat_ver(cat@, b)) by {
            lemma_sorted_from_adjacent(cat@, a, b);
        }
    }
    Ok(())
}

/// The version strings the catalog knows, in catalog order.
pub fn known_versions(cat: &Vec<Migration>) -> (r: Vec<String>)
    ensures
        r@.len() == cat@.len(),
        forall|i: int| 0 <= i < r@.len() ==> #[trigger] r@[i]@ == cat@[i].version@,
{
    let mut out: Vec<String> = Vec::new();
    let mut i: usize = 0;
    while i < cat.len()
        invariant
            0 <= i <= cat@.len(),
            out@.len() == i,
            forall|k: int| 0 <= k < i ==> #[trigger] out@[k]@ == cat@[k].version@,
        decreases cat@.len() - i,
    {
        out.push(cat[i].version.to_owned());
        i = i + 1;
    }
    out
}

/// The built-in catalog of this application's schema.  The records must stay
/// in strictly ascending version order.
pub fn migration_catalog() -> (r: Vec<Migration>)
    ensures
        r@.len() == 1,
        r@[0].version@ == "0.1.0"@,
{
    let mut cat: Vec<Migration> = Vec::new();
    cat.push(
        Migration {
            version: "0.1.0",
            up: "CREATE TABLE IF NOT EXISTS _app_meta (version TEXT NOT NULL);\nINSERT INTO _app_meta (version) SELECT '0.0.0' WHERE NOT EXISTS (SELECT 1 FROM _app_meta);\nCREATE TABLE IF NOT EXISTS books (id INTEGER PRIMARY KEY, book_group INTEGER NOT NULL, product_code TEXT NOT NULL UNIQUE, title TEXT NOT NULL, author TEXT, product_type TEXT NOT NULL, cover TEXT, sort_num INTEGER NOT NULL DEFAULT 0);\nCREATE TABLE IF NOT EXISTS reading_progress (id INTEGER PRIMARY KEY, book_id INTEGER NOT NULL UNIQUE REFERENCES books(id), resource_id TEXT, page_label TEXT, scale REAL NOT NULL DEFAULT 1.0, offset_x INTEGER NOT NULL DEFAULT 0, offset_y INTEGER NOT NULL DEFAULT 0, updated_at TEXT NOT NULL DEFAULT CURRENT_TIMESTAMP);",
            down: "DROP TABLE IF EXISTS reading_progress;\nDROP TABLE IF EXISTS books;",
        },
    );
    cat
}

} // verus!

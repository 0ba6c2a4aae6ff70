//! The migration runner.  Given the stored version, a target and the
//! catalog, it first computes the exact plan — which steps run, in which
//! order, and which marker text each one writes — and then drives a backend
//! through that plan, stopping at the first failure so that the marker
//! always reflects the last step that completed.

use vstd::prelude::*;
use vstd::string::StrSliceExecFns;
use vstd::string::StringExecFns;

use crate::catalog::Migration;
use crate::catalog::cat_ver;
use crate::catalog::catalog_versions_parse;
use crate::catalog::catalog_wf;
use crate::catalog::check_catalog;
use crate::catalog::record_version;
use crate::errors::MigrateError;
use crate::store::Backend;
use crate::store::StoreModel;
use crate::version::Version;
use crate::version::marker_version;
use crate::version::normalize_version;
use crate::version::parse_version;
use crate::version::spec_marker_parses;
use crate::version::spec_marker_version;
use crate::version::spec_normalize;
use crate::version::spec_parse_version;

verus! {

/// One planned step: the statement to execute, where there is one, and the
/// marker text to write after it.
#[derive(Debug, Clone, PartialEq, Eq)]
pub struct Step {
    pub statement: Option<String>,
    pub mark: String,
}

/// The ghost image of a planned step.
#[verifier::ext_equal]
pub struct StepModel {
    pub statement: Option<Seq<char>>,
    pub mark: Seq<char>,
}

impl View for Step {
    type V = StepModel;

    open spec fn view(&self) -> StepModel {
        StepModel {
            statement: match self.statement {
                Some(s) => Some(s@),
                None => None,
            },
            mark: self.mark@,
        }
    }
}

/// The ghost image of a whole plan.
pub open spec fn plan_view(plan: Seq<Step>) -> Seq<StepModel> {
    plan.map_values(|s: Step| s@)
}

/// Whether an upgrade pass applies the record `m`: its version lies strictly
/// above the current version, and not above the target where one is set.
pub open spec fn up_applies(m: Migration, cur: Version, tgt: Option<Version>) -> bool {
    cur.spec_lt(record_version(m)->0) && (tgt matches Some(t) ==> (record_version(m)->0).spec_le(
        t,
    ))
}

/// The step an upgrade pass runs for the record at `i`: its up statement,
/// then its own version as the new marker.
pub open spec fn up_step(cat: Seq<Migration>, i: int) -> StepModel {
    StepModel { statement: Some(cat[i].up@), mark: cat[i].version@ }
}

/// The upgrade plan over the records from `i` on, in ascending order.
pub open spec fn spec_plan_up_from(
    cat: Seq<Migration>,
    cur: Version,
    tgt: Option<Version>,
    i: int,
) -> Seq<StepModel>
    decreases cat.len() - i,
{
    if i < 0 || i >= cat.len() {
        Seq::empty()
    } else {
        (if up_applies(cat[i], cur, tgt) {
            seq![up_step(cat, i)]
        } else {
            Seq::empty()
        }) + spec_plan_up_from(cat, cur, tgt, i + 1)
    }
}

/// The whole upgrade plan: every record strictly above `cur` and not above
/// the target, in catalog order.
pub open spec fn spec_plan_up(cat: Seq<Migration>, cur: Version, tgt: Option<Version>) -> Seq<
    StepModel,
> {
    spec_plan_up_from(cat, cur, tgt, 0)
}

/// Whether a downgrade pass applies the record `m`: the store is at or above
/// its version, and the target lies strictly below it.
pub open spec fn down_applies(m: Migration, cur: Version, tgt: Version) -> bool {
    (record_version(m)->0).spec_le(cur) && tgt.spec_lt(record_version(m)->0)
}

/// The marker a downgrade writes after unwinding the record at `i`: the
/// version of the record just before it, or the base version for the first.
pub open spec fn down_mark(cat: Seq<Migration>, i: int) -> Seq<char> {
    if i == 0 {
        "0.0.0"@
    } else {
        cat[i - 1].version@
    }
}

/// The step a downgrade pass runs for the record at `i`: its down statement
/// unless that is empty, then the preceding version as the new marker.
pub open spec fn down_step(cat: Seq<Migration>, i: int) -> StepModel {
    StepModel {
        statement: if cat[i].down@.len() == 0 {
            None
        } else {
            Some(cat[i].down@)
        },
        mark: down_mark(cat, i),
    }
}

/// The downgrade plan over the records below `i`, in descending order.
pub open spec fn spec_plan_down_upto(
    cat: Seq<Migration>,
    cur: Version,
    tgt: Version,
    i: int,
) -> Seq<StepModel>
    decreases i,
{
    if i <= 0 || i > cat.len() {
        Seq::empty()
    } else {
        (if down_applies(cat[i - 1], cur, tgt) {
            seq![down_step(cat, i - 1)]
        } else {
            Seq::empty()
        }) + spec_plan_down_upto(cat, cur, tgt, i - 1)
    }
}

/// The whole downgrade plan: every record at or below `cur` and strictly
/// above the target, in reverse catalog order.
pub open spec fn spec_plan_down(cat: Seq<Migration>, cur: Version, tgt: Version) -> Seq<
    StepModel,
> {
    spec_plan_down_upto(cat, cur, tgt, cat.len() as int)
}

/// The greatest catalog version strictly below `cur`, or the base version
/// where no record lies below: the default downgrade target, one step back.
pub open spec fn spec_default_down_target(cat: Seq<Migration>, cur: Version, i: int) -> Version
    decreases i,
{
    if i <= 0 || i > cat.len() {
        Version::spec_zero()
    } else {
        let rest = spec_default_down_target(cat, cur, i - 1);
        let v = record_version(cat[i - 1])->0;
        if v.spec_lt(cur) && rest.spec_lt(v) {
            v
        } else {
            rest
        }
    }
}

/// What one step does to the store: its statement, if any, joins the log,
/// and its marker text becomes the stored version.
pub open spec fn apply_step(m: StoreModel, s: StepModel) -> StoreModel {
    StoreModel {
        log: match s.statement {
            Some(stmt) => m.log.push(stmt),
            None => m.log,
        },
        version: s.mark,
    }
}

/// The store after the first `k` steps of a plan.
pub open spec fn apply_steps(m: StoreModel, plan: Seq<StepModel>, k: int) -> StoreModel
    decreases k,
{
    if k <= 0 {
        m
    } else {
        apply_step(apply_steps(m, plan, k - 1), plan[k - 1])
    }
}

/// The states a stopped run can leave behind: the first `k` steps applied in
/// full, possibly with step `k`'s statement already executed but its marker
/// not yet written — the failure point between a statement and the marker
/// write that follows it.
pub open spec fn partial_run(
    m0: StoreModel,
    plan: Seq<StepModel>,
    k: int,
    m1: StoreModel,
) -> bool {
    &&& 0 <= k <= plan.len()
    &&& m1.version == apply_steps(m0, plan, k).version
    &&& (m1.log == apply_steps(m0, plan, k).log || (k < plan.len() && plan[k].statement is Some
        && m1.log == apply_steps(m0, plan, k).log.push(plan[k].statement->0)))
}

/// How a run against a backend may end: on success the whole plan is
/// applied; on failure the error is the backend's, and the store sits at
/// some prefix of the plan, its marker reflecting the last completed step.
pub open spec fn run_outcome(
    m0: StoreModel,
    plan: Seq<StepModel>,
    m1: StoreModel,
    r: Result<(), MigrateError>,
) -> bool {
    match r {
        Ok(_) => m1 == apply_steps(m0, plan, plan.len() as int),
        Err(e) => e matches MigrateError::Backend(_) && exists|k: int|
            #[trigger] partial_run(m0, plan, k, m1),
    }
}

/// Computes the upgrade plan for a catalog whose versions all parse.
pub fn plan_up(cat: &Vec<Migration>, cur: Version, tgt: Option<Version>) -> (r: Vec<Step>)
    requires
        catalog_versions_parse(cat@),
    ensures
        plan_view(r@) == spec_plan_up(cat@, cur, tgt),
{
    let n = cat.len();
    let mut out: Vec<Step> = Vec::new();
    let mut i: usize = 0;
    proof {
        assert(plan_view(out@) + spec_plan_up_from(cat@, cur, tgt, 0) =~= spec_plan_up(
            cat@,
            cur,
            tgt,
        ));
    }
    while i < n
        invariant
            catalog_versions_parse(cat@),
            n == cat@.len(),
            0 <= i <= n,
            spec_plan_up(cat@, cur, tgt) == plan_view(out@) + spec_plan_up_from(
                cat@,
                cur,
                tgt,
                i as int,
            ),
        decreases n - i,
    {
        proof {
            assert(record_version(cat@[i as int]) is Some);
        }
        let normalized = normalize_version(cat[i].version);
        let v = parse_version(normalized.as_str()).unwrap();
        let applies = cur.lt(&v) && match tgt {
            Some(t) => v.le(&t),
            None => true,
        };
        proof {
            assert(v == record_version(cat@[i as int])->0);
            assert(applies == up_applies(cat@[i as int], cur, tgt));
        }
        let ghost before = plan_view(out@);
        if applies {
            out.push(
                Step { statement: Some(cat[i].up.to_owned()), mark: cat[i].version.to_owned() },
            );
            proof {
                assert(out@.last()@ =~~= up_step(cat@, i as int));
                assert(plan_view(out@) =~~= before + seq![up_step(cat@, i as int)]);
            }
        }
        proof {
            assert(spec_plan_up(cat@, cur, tgt) =~~= plan_view(out@) + spec_plan_up_from(
                cat@,
                cur,
                tgt,
                i as int + 1,
            ));
        }
        i = i + 1;
    }
    proof {
        assert(spec_plan_up(cat@, cur, tgt) =~~= plan_view(out@));
    }
    out
}

/// Computes the downgrade plan for a catalog whose versions all parse.
pub fn plan_down(cat: &Vec<Migration>, cur: Version, tgt: Version) -> (r: Vec<Step>)
    requires
        catalog_versions_parse(cat@),
    ensures
        plan_view(r@) == spec_plan_down(cat@, cur, tgt),
{
    let n = cat.len();
    let mut out: Vec<Step> = Vec::new();
    let mut i: usize = n;
    proof {
        assert(plan_view(out@) + spec_plan_down_upto(cat@, cur, tgt, n as int) =~= spec_plan_down(
            cat@,
            cur,
            tgt,
        ));
    }
    while i > 0
        invariant
            catalog_versions_parse(cat@),
            n == cat@.len(),
            0 <= i <= n,
            spec_plan_down(cat@, cur, tgt) == plan_view(out@) + spec_plan_down_upto(
                cat@,
                cur,
                tgt,
                i as int,
            ),
        decreases i,
    {
        let j = i - 1;
        proof {
            assert(record_version(cat@[j as int]) is Some);
        }
        let normalized = normalize_version(cat[j].version);
        let v = parse_version(normalized.as_str()).unwrap();
        let applies = v.le(&cur) && tgt.lt(&v);
        proof {
            assert(v == record_version(cat@[j as int])->0);
            assert(applies == down_applies(cat@[j as int], cur, tgt));
        }
        let ghost before = plan_view(out@);
        if applies {
            let statement = if cat[j].down.unicode_len() == 0 {
                None
            } else {
                Some(cat[j].down.to_owned())
            };
            let mark = if j == 0 {
                proof {
                    reveal_strlit("0.0.0");
                }
                String::from_str("0.0.0")
            } else {
                cat[j - 1].version.to_owned()
            };
            out.push(Step { statement, mark });
            proof {
                assert(out@.last()@ =~~= down_step(cat@, j as int));
                assert(plan_view(out@) =~~= before + seq![down_step(cat@, j as int)]);
            }
        }
        proof {
            assert(spec_plan_down(cat@, cur, tgt) =~~= plan_view(out@) + spec_plan_down_upto(
                cat@,
                cur,
                tgt,
                j as int,
            ));
        }
        i = j;
    }
    proof {
        assert(spec_plan_down(cat@, cur, tgt) =~~= plan_view(out@));
    }
    out
}

/// Resolves the default downgrade target: one catalog step back from `cur`,
/// or the base version where no record lies below `cur`.
pub fn default_down_target(cat: &Vec<Migration>, cur: Version) -> (r: Version)
    requires
        catalog_versions_parse(cat@),
    ensures
        r == spec_default_down_target(cat@, cur, cat@.len() as int),
{
    let n = cat.len();
    let mut best = Version::zero();
    let mut i: usize = 0;
    while i < n
        invariant
            catalog_versions_parse(cat@),
            n == cat@.len(),
            0 <= i <= n,
            best == spec_default_down_target(cat@, cur, i as int),
        decreases n - i,
    {
        proof {
            assert(record_version(cat@[i as int]) is Some);
        }
        let normalized = normalize_version(cat[i].version);
        let v = parse_version(normalized.as_str()).unwrap();
        if v.lt(&cur) && best.lt(&v) {
            best = v;
        }
        i = i + 1;
    }
    best
}

/// Drives a backend through a plan, step by step: execute the statement,
/// then write the marker, and stop at the first failure.
fn run_steps<B: Backend>(backend: &mut B, plan: &Vec<Step>) -> (r: Result<(), MigrateError>)
    ensures
        run_outcome(old(backend).model(), plan_view(plan@), final(backend).model(), r),
{
    let ghost m0 = old(backend).model();
    let ghost pm = plan_view(plan@);
    let n = plan.len();
    let mut i: usize = 0;
    while i < n
        invariant
            n == plan@.len(),
            0 <= i <= n,
            pm == plan_view(plan@),
            m0 == old(backend).model(),
            backend.model() == apply_steps(m0, pm, i as int),
        decreases n - i,
    {
        let ghost before = backend.model();
        match &plan[i].statement {
            Some(stmt) => {
                match backend.execute(stmt.as_str()) {
                    Ok(_) => {},
                    Err(e) => {
                        proof {
                            assert(partial_run(m0, pm, i as int, backend.model()));
                        }
                        return Err(MigrateError::Backend(e));
                    },
                }
            },
            None => {},
        }
        match backend.set_version(plan[i].mark.as_str()) {
            Ok(_) => {},
            Err(e) => {
                proof {
                    assert(pm[i as int].statement is Some ==> backend.model().log
                        == apply_steps(m0, pm, i as int).log.push(pm[i as int].statement->0));
                    assert(partial_run(m0, pm, i as int, backend.model()));
                }
                return Err(MigrateError::Backend(e));
            },
        }
        proof {
            assert(backend.model() =~~= apply_steps(m0, pm, i as int + 1));
        }
        i = i + 1;
    }
    Ok(())
}

/// Whether the explicit target text, if any, reads as a version after
/// normalization.
pub open spec fn target_parses(target: Option<&str>) -> bool {
    target matches Some(t) ==> spec_parse_version(spec_normalize(t@)) is Some
}

/// The version an explicit upgrade target resolves to; none means "latest".
pub open spec fn spec_up_target(target: Option<&str>) -> Option<Version> {
    match target {
        Some(t) => Some(spec_parse_version(spec_normalize(t@))->0),
        None => None,
    }
}

/// The version a downgrade target resolves to: the explicit target, or one
/// catalog step back from `cur`.
pub open spec fn spec_down_target(cat: Seq<Migration>, cur: Version, target: Option<&str>) -> Version {
    match target {
        Some(t) => spec_parse_version(spec_normalize(t@))->0,
        None => spec_default_down_target(cat, cur, cat.len() as int),
    }
}

/// Brings the store forward: every record strictly above the stored version
/// and not above the target runs in ascending order, the marker advancing
/// after each step.  An unusable catalog, a corrupted stored marker, or an
/// unreadable target stops the run before anything executes; a backend
/// failure stops it at the failing step, with the marker still reflecting
/// the last completed one.
pub fn migrate_up<B: Backend>(
    backend: &mut B,
    target: Option<&str>,
    cat: &Vec<Migration>,
) -> (r: Result<(), MigrateError>)
    ensures
        !catalog_wf(cat@) ==> final(backend).model() == old(backend).model() && r matches Err(
            MigrateError::Catalog(_),
        ),
        catalog_wf(cat@) && !spec_marker_parses(old(backend).model().version)
            ==> final(backend).model() == old(backend).model() && ((r matches Err(
            MigrateError::Parse(_),
        )) || (r matches Err(MigrateError::Backend(_)))),
        catalog_wf(cat@) && spec_marker_parses(old(backend).model().version) && !target_parses(
            target,
        ) ==> final(backend).model() == old(backend).model() && ((r matches Err(
            MigrateError::Parse(_),
        )) || (r matches Err(MigrateError::Backend(_)))),
        catalog_wf(cat@) && spec_marker_parses(old(backend).model().version) && target_parses(
            target,
        ) ==> run_outcome(
            old(backend).model(),
            spec_plan_up(
                cat@,
                spec_marker_version(old(backend).model().version),
                spec_up_target(target),
            ),
            final(backend).model(),
            r,
        ),
{
    let ghost m0 = old(backend).model();
    if let Err(e) = check_catalog(cat) {
        return Err(e);
    }
    let ghost plan_spec = spec_plan_up(
        cat@,
        spec_marker_version(m0.version),
        spec_up_target(target),
    );
    let current_text = match backend.get_version() {
        Ok(t) => t,
        Err(e) => {
            proof {
                if spec_marker_parses(m0.version) && target_parses(target) {
                    assert(partial_run(m0, plan_spec, 0, backend.model()));
                }
            }
            return Err(MigrateError::Backend(e));
        },
    };
    let cur = match marker_version(current_text.as_str()) {
        Some(v) => v,
        None => {
            return Err(MigrateError::Parse(current_text));
        },
    };
    let tgt: Option<Version> = match target {
        Some(t) => {
            let normalized = normalize_version(t);
            match parse_version(normalized.as_str()) {
                Some(v) => Some(v),
                None => {
                    return Err(MigrateError::Parse(t.to_owned()));
                },
            }
        },
        None => None,
    };
    let plan = plan_up(cat, cur, tgt);
    run_steps(backend, &plan)
}

/// Takes the store backward: every record at or below the stored version
/// and strictly above the target unwinds in descending order, the marker
/// stepping back to the preceding record's version after each step.  With
/// no explicit target, one step back; failure handling is as for the
/// upgrade direction.
pub fn migrate_down<B: Backend>(
    backend: &mut B,
    target: Option<&str>,
    cat: &Vec<Migration>,
) -> (r: Result<(), MigrateError>)
    ensures
        !catalog_wf(cat@) ==> final(backend).model() == old(backend).model() && r matches Err(
            MigrateError::Catalog(_),
        ),
        catalog_wf(cat@) && !spec_marker_parses(old(backend).model().version)
            ==> final(backend).model() == old(backend).model() && ((r matches Err(
            MigrateError::Parse(_),
        )) || (r matches Err(MigrateError::Backend(_)))),
        catalog_wf(cat@) && spec_marker_parses(old(backend).model().version) && !target_parses(
            target,
        ) ==> final(backend).model() == old(backend).model() && ((r matches Err(
            MigrateError::Parse(_),
        )) || (r matches Err(MigrateError::Backend(_)))),
        catalog_wf(cat@) && spec_marker_parses(old(backend).model().version) && target_parses(
            target,
        ) ==> run_outcome(
            old(backend).model(),
            spec_plan_down(
                cat@,
                spec_marker_version(old(backend).model().version),
                spec_down_target(cat@, spec_marker_version(old(backend).model().version), target),
            ),
            final(backend).model(),
            r,
        ),
{
    let ghost m0 = old(backend).model();
    if let Err(e) = check_catalog(cat) {
        return Err(e);
    }
    let ghost cur0 = spec_marker_version(m0.version);
    let ghost plan_spec = spec_plan_down(cat@, cur0, spec_down_target(cat@, cur0, target));
    let current_text = match backend.get_version() {
        Ok(t) => t,
        Err(e) => {
            proof {
                if spec_marker_parses(m0.version) && target_parses(target) {
                    assert(partial_run(m0, plan_spec, 0, backend.model()));
                }
            }
            return Err(MigrateError::Backend(e));
        },
    };
    let cur = match marker_version(current_text.as_str()) {
        Some(v) => v,
        None => {
            return Err(MigrateError::Parse(current_text));
        },
    };
    let tgt: Version = match target {
        Some(t) => {
            let normalized = normalize_version(t);
            match parse_version(normalized.as_str()) {
                Some(v) => v,
                None => {
                    return Err(MigrateError::Parse(t.to_owned()));
                },
            }
        },
        None => default_down_target(cat, cur),
    };
    let plan = plan_down(cat, cur, tgt);
    run_steps(backend, &plan)
}

/// The one-time initialization gate: where the first run has already
/// happened nothing is done; otherwise the store is brought to the latest
/// catalog version, and only a fully successful run reports that a fresh
/// migration occurred — the caller persists that fact on success and only
/// then, so a failed first run stays retryable.
pub fn initialize<B: Backend>(
    backend: &mut B,
    already_initialized: bool,
    cat: &Vec<Migration>,
) -> (r: Result<bool, MigrateError>)
    ensures
        already_initialized ==> r == Ok::<bool, MigrateError>(false) && final(backend).model()
            == old(backend).model(),
        !already_initialized && !catalog_wf(cat@) ==> final(backend).model() == old(
            backend,
        ).model() && r matches Err(MigrateError::Catalog(_)),
        !already_initialized && catalog_wf(cat@) && !spec_marker_parses(
            old(backend).model().version,
        ) ==> final(backend).model() == old(backend).model() && ((r matches Err(
            MigrateError::Parse(_),
        )) || (r matches Err(MigrateError::Backend(_)))),
        !already_initialized && catalog_wf(cat@) && spec_marker_parses(
            old(backend).model().version,
        ) ==> ({
            let m0 = old(backend).model();
            let plan = spec_plan_up(cat@, spec_marker_version(m0.version), None);
            &&& r matches Ok(fresh) ==> fresh && final(backend).model() == apply_steps(
                m0,
                plan,
                plan.len() as int,
            )
            &&& r matches Err(e) ==> e matches MigrateError::Backend(_) && exists|k: int|
                #[trigger] partial_run(m0, plan, k, final(backend).model())
        }),
{
    if already_initialized {
        return Ok(false);
    }
    match migrate_up(backend, None, cat) {
        Ok(_) => Ok(true),
        Err(e) => Err(e),
    }
}

/// An upgrade plan tail is empty exactly when none of its records applies.
proof fn lemma_plan_up_from_empty_iff(
    cat: Seq<Migration>,
    cur: Version,
    tgt: Option<Version>,
    i: int,
)
    requires
        0 <= i,
    ensures
        spec_plan_up_from(cat, cur, tgt, i).len() == 0 <==> forall|k: int|
            i <= k < cat.len() ==> !up_applies(#[trigger] cat[k], cur, tgt),
    decreases cat.len() - i,
{
    if i < cat.len() {
        lemma_plan_up_from_empty_iff(cat, cur, tgt, i + 1);
    }
}

/// A downgrade plan prefix is empty exactly when none of its records
/// applies.
proof fn lemma_plan_down_upto_empty_iff(cat: Seq<Migration>, cur: Version, tgt: Version, i: int)
    requires
        i <= cat.len(),
    ensures
        spec_plan_down_upto(cat, cur, tgt, i).len() == 0 <==> forall|k: int|
            0 <= k < i ==> !down_applies(#[trigger] cat[k], cur, tgt),
    decreases i,
{
    if i > 0 {
        lemma_plan_down_upto_empty_iff(cat, cur, tgt, i - 1);
    }
}

/// In a sorted catalog, a nonempty full upgrade plan ends with the last
/// record: the plan's final step runs the last record's statement and
/// leaves its version as the marker.
proof fn lemma_plan_up_from_last(cat: Seq<Migration>, cur: Version, i: int)
    requires
        catalog_wf(cat),
        0 <= i,
        spec_plan_up_from(cat, cur, None, i).len() > 0,
    ensures
        i < cat.len(),
        spec_plan_up_from(cat, cur, None, i).last() == up_step(cat, cat.len() - 1),
        up_applies(cat[cat.len() - 1], cur, None),
    decreases cat.len() - i,
{
    let rest = spec_plan_up_from(cat, cur, None, i + 1);
    if rest.len() > 0 {
        lemma_plan_up_from_last(cat, cur, i + 1);
        assert(spec_plan_up_from(cat, cur, None, i).last() == rest.last());
    } else {
        lemma_plan_up_from_empty_iff(cat, cur, None, i + 1);
        assert(up_applies(cat[i], cur, None));
        if i < cat.len() - 1 {
            assert(cat_ver(cat, i).spec_lt(cat_ver(cat, cat.len() - 1)));
            assert(up_applies(cat[cat.len() - 1], cur, None));
            assert(false);
        }
        assert(spec_plan_up_from(cat, cur, None, i) =~= seq![up_step(cat, i)]);
    }
}

/// Where the record at `j0` is the lowest one a downgrade unwinds, the
/// plan ends with that record's step — the one whose marker write is the
/// last of the whole run.
proof fn lemma_plan_down_upto_last(
    cat: Seq<Migration>,
    cur: Version,
    tgt: Version,
    i: int,
    j0: int,
)
    requires
        0 <= j0 < i <= cat.len(),
        down_applies(cat[j0], cur, tgt),
        forall|k: int| 0 <= k < j0 ==> !down_applies(#[trigger] cat[k], cur, tgt),
    ensures
        spec_plan_down_upto(cat, cur, tgt, i).len() > 0,
        spec_plan_down_upto(cat, cur, tgt, i).last() == down_step(cat, j0),
    decreases i,
{
    if i > j0 + 1 {
        lemma_plan_down_upto_last(cat, cur, tgt, i - 1, j0);
        assert(spec_plan_down_upto(cat, cur, tgt, i).last() == spec_plan_down_upto(
            cat,
            cur,
            tgt,
            i - 1,
        ).last());
    } else {
        lemma_plan_down_upto_empty_iff(cat, cur, tgt, j0);
        assert(spec_plan_down_upto(cat, cur, tgt, j0).len() == 0);
        assert(spec_plan_down_upto(cat, cur, tgt, j0 + 1) =~= seq![down_step(cat, j0)]);
    }
}

/// A record's own version text reads back, through the marker reader, as
/// the version the catalog files it under.
pub proof fn lemma_record_marker_round_trip(cat: Seq<Migration>, i: int)
    requires
        0 <= i < cat.len(),
        catalog_versions_parse(cat),
    ensures
        spec_marker_parses(cat[i].version@),
        spec_marker_version(cat[i].version@) == cat_ver(cat, i),
{
    assert(record_version(cat[i]) is Some);
}

/// Migrating up toward a target equal to the current version plans no step
/// at all: the run is a no-op that succeeds trivially.
pub proof fn lemma_up_to_current_applies_nothing(cat: Seq<Migration>, cur: Version)
    ensures
        spec_plan_up(cat, cur, Some(cur)) =~= Seq::<StepModel>::empty(),
{
    assert forall|k: int| 0 <= k < cat.len() implies !up_applies(
        #[trigger] cat[k],
        cur,
        Some(cur),
    ) by {
        let v = record_version(cat[k])->0;
        assert(cur.spec_lt(v) && v.spec_le(cur) ==> false);
    }
    lemma_plan_up_from_empty_iff(cat, cur, Some(cur), 0);
}

/// Migrating down toward a target equal to the current version plans no
/// step either: the no-op holds in both directions.
pub proof fn lemma_down_to_current_applies_nothing(cat: Seq<Migration>, cur: Version)
    ensures
        spec_plan_down(cat, cur, cur) =~= Seq::<StepModel>::empty(),
{
    assert forall|k: int| 0 <= k < cat.len() implies !down_applies(
        #[trigger] cat[k],
        cur,
        cur,
    ) by {
        let v = record_version(cat[k])->0;
        assert(v.spec_le(cur) && cur.spec_lt(v) ==> false);
    }
    lemma_plan_down_upto_empty_iff(cat, cur, cur, cat.len() as int);
}

/// An explicit upgrade target at or above every record plans the same run
/// as no target at all: everything pending is applied.
pub proof fn lemma_up_target_above_all_is_latest(cat: Seq<Migration>, cur: Version, t: Version)
    requires
        forall|k: int| 0 <= k < cat.len() ==> (#[trigger] cat_ver(cat, k)).spec_le(t),
    ensures
        spec_plan_up(cat, cur, Some(t)) =~= spec_plan_up(cat, cur, None),
{
    lemma_plan_up_from_target_above_all(cat, cur, t, 0);
}

proof fn lemma_plan_up_from_target_above_all(cat: Seq<Migration>, cur: Version, t: Version, i: int)
    requires
        forall|k: int| 0 <= k < cat.len() ==> (#[trigger] cat_ver(cat, k)).spec_le(t),
        0 <= i,
    ensures
        spec_plan_up_from(cat, cur, Some(t), i) =~= spec_plan_up_from(cat, cur, None, i),
    decreases cat.len() - i,
{
    if i < cat.len() {
        assert(cat_ver(cat, i).spec_le(t));
        assert(up_applies(cat[i], cur, Some(t)) == up_applies(cat[i], cur, None));
        lemma_plan_up_from_target_above_all(cat, cur, t, i + 1);
    }
}

/// Migrating up to the latest version twice in a row applies nothing the
/// second time: after a full first run the stored marker already names the
/// greatest pending version, so the second plan is empty.
pub proof fn lemma_second_up_applies_nothing(cat: Seq<Migration>, m0: StoreModel)
    requires
        catalog_wf(cat),
    ensures
        ({
            let up = spec_plan_up(cat, spec_marker_version(m0.version), None);
            let m1 = apply_steps(m0, up, up.len() as int);
            spec_plan_up(cat, spec_marker_version(m1.version), None) =~= Seq::<
                StepModel,
            >::empty()
        }),
{
    let cur = spec_marker_version(m0.version);
    let up = spec_plan_up(cat, cur, None);
    let m1 = apply_steps(m0, up, up.len() as int);
    if up.len() == 0 {
        assert(m1 == m0);
    } else {
        lemma_plan_up_from_last(cat, cur, 0);
        let n = cat.len() as int;
        assert(m1.version == up_step(cat, n - 1).mark);
        lemma_record_marker_round_trip(cat, n - 1);
        let top = cat_ver(cat, n - 1);
        assert(spec_marker_version(m1.version) == top);
        assert forall|k: int| 0 <= k < cat.len() implies !up_applies(
            #[trigger] cat[k],
            top,
            None,
        ) by {
            if k < n - 1 {
                assert(cat_ver(cat, k).spec_lt(top));
            }
        }
        lemma_plan_up_from_empty_iff(cat, top, None, 0);
    }
}

/// Migrating a fresh store up to the latest version and then down to the
/// base target restores the stored marker to one that reads as the base
/// version, for every usable catalog: the downgrade's final step unwinds
/// the lowest record that was ever applied and writes the version below it.
pub proof fn lemma_up_then_down_restores_base(cat: Seq<Migration>, m0: StoreModel)
    requires
        catalog_wf(cat),
        m0.version == "0.0.0"@,
    ensures
        ({
            let up = spec_plan_up(cat, spec_marker_version(m0.version), None);
            let m1 = apply_steps(m0, up, up.len() as int);
            let down = spec_plan_down(
                cat,
                spec_marker_version(m1.version),
                Version::spec_zero(),
            );
            let m2 = apply_steps(m1, down, down.len() as int);
            spec_marker_parses(m2.version) && spec_marker_version(m2.version)
                == Version::spec_zero()
        }),
{
    crate::version::lemma_zero_marker();
    let zero = Version::spec_zero();
    let cur0 = spec_marker_version(m0.version);
    let up = spec_plan_up(cat, cur0, None);
    let m1 = apply_steps(m0, up, up.len() as int);
    let n = cat.len() as int;
    if up.len() == 0 {
        // Nothing lies above the base version, so nothing is applied and
        // nothing is there to unwind.
        assert(m1 == m0);
        lemma_plan_up_from_empty_iff(cat, cur0, None, 0);
        assert forall|k: int| 0 <= k < cat.len() implies !down_applies(
            #[trigger] cat[k],
            spec_marker_version(m1.version),
            zero,
        ) by {
            assert(!up_applies(cat[k], cur0, None));
        }
        lemma_plan_down_upto_empty_iff(cat, spec_marker_version(m1.version), zero, n);
        let down = spec_plan_down(cat, spec_marker_version(m1.version), zero);
        assert(down.len() == 0);
        assert(apply_steps(m1, down, 0) == m1);
    } else {
        lemma_plan_up_from_empty_iff(cat, cur0, None, 0);
        lemma_plan_up_from_last(cat, cur0, 0);
        lemma_record_marker_round_trip(cat, n - 1);
        let cur1 = spec_marker_version(m1.version);
        assert(m1.version == cat[n - 1].version@);
        assert(cur1 == cat_ver(cat, n - 1));
        let down = spec_plan_down(cat, cur1, zero);
        if zero.spec_lt(cat_ver(cat, 0)) {
            // Every applied record lies above the base, the first included:
            // the last marker written is the base text itself.
            assert(down_applies(cat[0], cur1, zero)) by {
                if n > 1 {
                    assert(cat_ver(cat, 0).spec_lt(cat_ver(cat, n - 1)));
                }
            }
            lemma_plan_down_upto_last(cat, cur1, zero, n, 0);
            assert(down.last() == down_step(cat, 0));
            assert(apply_steps(m1, down, down.len() as int).version == "0.0.0"@);
        } else {
            // The first record sits at the base version itself: it is never
            // applied and never unwound, and the last marker written is its
            // own version text, which reads as the base version.
            assert(cat_ver(cat, 0) == zero);
            let kw = choose|kw: int|
                0 <= kw < cat.len() && up_applies(#[trigger] cat[kw], cur0, None);
            assert(cur0.spec_lt(cat_ver(cat, kw)));
            assert(kw != 0);
            assert(n >= 2);
            assert(zero.spec_lt(cat_ver(cat, 1))) by {
                assert(cat_ver(cat, 0).spec_lt(cat_ver(cat, 1)));
            }
            assert(down_applies(cat[1], cur1, zero)) by {
                if n > 2 {
                    assert(cat_ver(cat, 1).spec_lt(cat_ver(cat, n - 1)));
                }
            }
            assert forall|k: int| 0 <= k < 1 implies !down_applies(
                #[trigger] cat[k],
                cur1,
                zero,
            ) by {
                assert(!zero.spec_lt(cat_ver(cat, 0)));
            }
            lemma_plan_down_upto_last(cat, cur1, zero, n, 1);
            assert(down.last() == down_step(cat, 1));
            assert(down.last().mark == cat[0].version@);
            lemma_record_marker_round_trip(cat, 0);
            assert(apply_steps(m1, down, down.len() as int).version == cat[0].version@);
        }
    }
}

/// Where every record lies strictly above the base version, the restored
/// marker is the base text itself, letter for letter.
pub proof fn lemma_up_then_down_restores_base_text(cat: Seq<Migration>, m0: StoreModel)
    requires
        catalog_wf(cat),
        m0.version == "0.0.0"@,
        forall|k: int| 0 <= k < cat.len() ==> Version::spec_zero().spec_lt(
            #[trigger] cat_ver(cat, k),
        ),
    ensures
        ({
            let up = spec_plan_up(cat, spec_marker_version(m0.version), None);
            let m1 = apply_steps(m0, up, up.len() as int);
            let down = spec_plan_down(
                cat,
                spec_marker_version(m1.version),
                Version::spec_zero(),
            );
            let m2 = apply_steps(m1, down, down.len() as int);
            m2.version == "0.0.0"@
        }),
{
    crate::version::lemma_zero_marker();
    let zero = Version::spec_zero();
    let cur0 = spec_marker_version(m0.version);
    let up = spec_plan_up(cat, cur0, None);
    let m1 = apply_steps(m0, up, up.len() as int);
    let n = cat.len() as int;
    if n == 0 {
        assert(m1 == m0);
        let down = spec_plan_down(cat, spec_marker_version(m1.version), zero);
        assert(down =~= Seq::<StepModel>::empty());
        assert(apply_steps(m1, down, 0) == m1);
    } else {
        assert(Version::spec_zero().spec_lt(cat_ver(cat, 0)));
        assert(up_applies(cat[0], cur0, None));
        lemma_plan_up_from_empty_iff(cat, cur0, None, 0);
        lemma_plan_up_from_last(cat, cur0, 0);
        lemma_record_marker_round_trip(cat, n - 1);
        let cur1 = spec_marker_version(m1.version);
        assert(cur1 == cat_ver(cat, n - 1));
        assert(down_applies(cat[0], cur1, zero)) by {
            if n > 1 {
                assert(cat_ver(cat, 0).spec_lt(cat_ver(cat, n - 1)));
            }
        }
        lemma_plan_down_upto_last(cat, cur1, zero, n, 0);
        let down = spec_plan_down(cat, cur1, zero);
        assert(down.last() == down_step(cat, 0));
        assert(apply_steps(m1, down, down.len() as int).version == down.last().mark);
    }
}

/// An upgrade tail every record of which applies is the whole tail, in
/// catalog order.
proof fn lemma_plan_up_from_all_apply(
    cat: Seq<Migration>,
    cur: Version,
    tgt: Option<Version>,
    i: int,
)
    requires
        0 <= i <= cat.len(),
        forall|k: int| i <= k < cat.len() ==> up_applies(#[trigger] cat[k], cur, tgt),
    ensures
        spec_plan_up_from(cat, cur, tgt, i).len() == cat.len() - i,
        forall|q: int|
            0 <= q < cat.len() - i ==> spec_plan_up_from(cat, cur, tgt, i)[q] == up_step(
                cat,
                i + q,
            ),
    decreases cat.len() - i,
{
    if i < cat.len() {
        lemma_plan_up_from_all_apply(cat, cur, tgt, i + 1);
        assert(up_applies(cat[i], cur, tgt));
        assert forall|q: int| 0 <= q < cat.len() - i implies spec_plan_up_from(
            cat,
            cur,
            tgt,
            i,
        )[q] == up_step(cat, i + q) by {
            if q > 0 {
                assert(spec_plan_up_from(cat, cur, tgt, i)[q] == spec_plan_up_from(
                    cat,
                    cur,
                    tgt,
                    i + 1,
                )[q - 1]);
            }
        }
    }
}

/// A downgrade prefix every record of which applies unwinds each of those
/// records exactly once, in descending catalog order.
proof fn lemma_plan_down_upto_all_apply(cat: Seq<Migration>, cur: Version, tgt: Version, i: int)
    requires
        0 <= i <= cat.len(),
        forall|k: int| 0 <= k < i ==> down_applies(#[trigger] cat[k], cur, tgt),
    ensures
        spec_plan_down_upto(cat, cur, tgt, i).len() == i,
        forall|q: int|
            0 <= q < i ==> spec_plan_down_upto(cat, cur, tgt, i)[q] == down_step(
                cat,
                i - 1 - q,
            ),
    decreases i,
{
    if i > 0 {
        lemma_plan_down_upto_all_apply(cat, cur, tgt, i - 1);
        assert(down_applies(cat[i - 1], cur, tgt));
        assert forall|q: int| 0 <= q < i implies spec_plan_down_upto(cat, cur, tgt, i)[q]
            == down_step(cat, i - 1 - q) by {
            if q > 0 {
                assert(spec_plan_down_upto(cat, cur, tgt, i)[q] == spec_plan_down_upto(
                    cat,
                    cur,
                    tgt,
                    i - 1,
                )[q - 1]);
            }
        }
    }
}

/// The full round trip over a catalog that lies wholly above the base
/// version: the upgrade applies every record once, in ascending order, and
/// the downgrade back to base unwinds exactly those records, each once, in
/// descending order.
pub proof fn lemma_full_cycle_unwinds_each_record_once(cat: Seq<Migration>, m0: StoreModel)
    requires
        catalog_wf(cat),
        m0.version == "0.0.0"@,
        forall|k: int| 0 <= k < cat.len() ==> Version::spec_zero().spec_lt(
            #[trigger] cat_ver(cat, k),
        ),
    ensures
        ({
            let up = spec_plan_up(cat, spec_marker_version(m0.version), None);
            let m1 = apply_steps(m0, up, up.len() as int);
            let down = spec_plan_down(
                cat,
                spec_marker_version(m1.version),
                Version::spec_zero(),
            );
            &&& up.len() == cat.len()
            &&& forall|q: int| 0 <= q < cat.len() ==> up[q] == up_step(cat, q)
            &&& down.len() == cat.len()
            &&& forall|q: int|
                0 <= q < cat.len() ==> down[q] == down_step(cat, cat.len() - 1 - q)
        }),
{
    crate::version::lemma_zero_marker();
    let zero = Version::spec_zero();
    let cur0 = spec_marker_version(m0.version);
    assert forall|k: int| 0 <= k < cat.len() implies up_applies(
        #[trigger] cat[k],
        cur0,
        None,
    ) by {
        assert(zero.spec_lt(cat_ver(cat, k)));
    }
    lemma_plan_up_from_all_apply(cat, cur0, None, 0);
    let up = spec_plan_up(cat, cur0, None);
    let m1 = apply_steps(m0, up, up.len() as int);
    let n = cat.len() as int;
    if n == 0 {
        let cur1 = spec_marker_version(m1.version);
        lemma_plan_down_upto_all_apply(cat, cur1, zero, 0);
    } else {
        assert(up[n - 1] == up_step(cat, n - 1));
        assert(m1.version == cat[n - 1].version@);
        lemma_record_marker_round_trip(cat, n - 1);
        let cur1 = spec_marker_version(m1.version);
        assert(cur1 == cat_ver(cat, n - 1));
        assert forall|k: int| 0 <= k < n implies down_applies(
            #[trigger] cat[k],
            cur1,
            zero,
        ) by {
            if k < n - 1 {
                assert(cat_ver(cat, k).spec_lt(cat_ver(cat, n - 1)));
            }
        }
        lemma_plan_down_upto_all_apply(cat, cur1, zero, n);
    }
}

/// What a run adds to the log comes only from the plan's first `k` steps:
/// the prior log stays in place, and every new entry is some earlier step's
/// statement.
proof fn lemma_apply_steps_log(m0: StoreModel, plan: Seq<StepModel>, k: int)
    requires
        0 <= k <= plan.len(),
    ensures
        m0.log.len() <= apply_steps(m0, plan, k).log.len() <= m0.log.len() + k,
        forall|j: int| 0 <= j < m0.log.len() ==> apply_steps(m0, plan, k).log[j] == m0.log[j],
        forall|j: int|
            m0.log.len() <= j < apply_steps(m0, plan, k).log.len() ==> exists|p: int|
                0 <= p < k && plan[p].statement == Some(
                    #[trigger] apply_steps(m0, plan, k).log[j],
                ),
    decreases k,
{
    if k > 0 {
        lemma_apply_steps_log(m0, plan, k - 1);
        let prev = apply_steps(m0, plan, k - 1);
        let curr = apply_steps(m0, plan, k);
        assert forall|j: int| 0 <= j < m0.log.len() implies curr.log[j] == m0.log[j] by {
            assert(prev.log[j] == m0.log[j]);
            assert(curr.log[j] == prev.log[j]);
        }
        assert forall|j: int| m0.log.len() <= j < curr.log.len() implies exists|p: int|
            0 <= p < k && plan[p].statement == Some(#[trigger] curr.log[j]) by {
            if j < prev.log.len() {
                let p0 = choose|p0: int|
                    0 <= p0 < k - 1 && plan[p0].statement == Some(#[trigger] prev.log[j]);
                assert(curr.log[j] == prev.log[j]);
                assert(plan[p0].statement == Some(curr.log[j]));
            } else {
                assert(plan[k - 1].statement is Some);
                assert(curr.log[j] == plan[k - 1].statement->0);
            }
        }
    }
}

/// What a stopped run leaves behind, spelled out: the marker names the last
/// completed step (or is untouched when none completed), what was logged
/// before is intact, at most the first `k + 1` statements were added, and
/// every added statement belongs to one of the plan's first `k + 1` steps —
/// later steps leave no trace.
pub proof fn lemma_partial_run_log(
    m0: StoreModel,
    plan: Seq<StepModel>,
    k: int,
    m1: StoreModel,
)
    requires
        partial_run(m0, plan, k, m1),
    ensures
        k == 0 ==> m1.version == m0.version,
        k > 0 ==> m1.version == plan[k - 1].mark,
        m1.log.len() <= m0.log.len() + k + 1,
        forall|j: int| 0 <= j < m0.log.len() ==> m1.log[j] == m0.log[j],
        forall|j: int|
            m0.log.len() <= j < m1.log.len() ==> exists|p: int|
                0 <= p <= k && p < plan.len() && plan[p].statement == Some(#[trigger] m1.log[j]),
{
    lemma_apply_steps_log(m0, plan, k);
    let reached = apply_steps(m0, plan, k);
    assert forall|j: int| 0 <= j < m0.log.len() implies m1.log[j] == m0.log[j] by {
        assert(reached.log[j] == m0.log[j]);
        assert(m1.log[j] == reached.log[j]);
    }
    assert forall|j: int| m0.log.len() <= j < m1.log.len() implies exists|p: int|
        0 <= p <= k && p < plan.len() && plan[p].statement == Some(#[trigger] m1.log[j]) by {
        if j < reached.log.len() {
            let p0 = choose|p0: int|
                0 <= p0 < k && plan[p0].statement == Some(#[trigger] reached.log[j]);
            assert(m1.log[j] == reached.log[j]);
            assert(plan[p0].statement == Some(m1.log[j]));
        } else {
            assert(m1.log == reached.log.push(plan[k].statement->0));
            assert(m1.log[j] == plan[k].statement->0);
        }
    }
}

} // verus!

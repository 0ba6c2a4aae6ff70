//! The store lifecycle state: the application-wide holder of "no backend
//! yet" / "backend attached".  Whoever needs the store goes through it and
//! gets a distinct "not initialized" error while the slot is empty, never a
//! hang.  The surrounding shell provides the read/write exclusion; this
//! holder owns the slot itself.

use vstd::prelude::*;

use crate::catalog::Migration;
use crate::catalog::catalog_wf;
use crate::errors::MigrateError;
use crate::runner::migrate_down;
use crate::runner::migrate_up;
use crate::runner::run_outcome;
use crate::runner::spec_down_target;
use crate::runner::spec_plan_down;
use crate::runner::spec_plan_up;
use crate::runner::spec_up_target;
use crate::runner::target_parses;
use crate::store::Backend;
use crate::store::StoreModel;
use crate::version::spec_marker_parses;
use crate::version::spec_marker_version;

verus! {

/// Which way a migration run moves the store.
#[derive(Debug, Clone, Copy, PartialEq, Eq, Structural)]
pub enum Direction {
    Up,
    Down,
}

/// What an administrative migration call may do to an attached store.
pub open spec fn migrate_to_outcome(
    direction: Direction,
    m0: StoreModel,
    target: Option<&str>,
    cat: Seq<Migration>,
    m1: StoreModel,
    r: Result<(), MigrateError>,
) -> bool {
    &&& !catalog_wf(cat) ==> m1 == m0 && (r matches Err(MigrateError::Catalog(_)))
    &&& catalog_wf(cat) && !spec_marker_parses(m0.version) ==> m1 == m0 && ((r matches Err(
        MigrateError::Parse(_),
    )) || (r matches Err(MigrateError::Backend(_))))
    &&& catalog_wf(cat) && spec_marker_parses(m0.version) && !target_parses(target) ==> m1 == m0
        && ((r matches Err(MigrateError::Parse(_))) || (r matches Err(
        MigrateError::Backend(_),
    )))
    &&& catalog_wf(cat) && spec_marker_parses(m0.version) && target_parses(target) ==> run_outcome(
        m0,
        match direction {
            Direction::Up => spec_plan_up(
                cat,
                spec_marker_version(m0.version),
                spec_up_target(target),
            ),
            Direction::Down => spec_plan_down(
                cat,
                spec_marker_version(m0.version),
                spec_down_target(cat, spec_marker_version(m0.version), target),
            ),
        },
        m1,
        r,
    )
}

/// The swappable backend slot.  At most one backend is attached at a time;
/// attaching a new one releases the previous one first.
pub struct DbState<B> {
    pub backend: Option<B>,
}

impl<B: Backend> DbState<B> {
    /// An empty slot: no backend attached yet.
    pub fn new() -> (r: DbState<B>)
        ensures
            r.backend is None,
    {
        DbState { backend: None }
    }

    /// Installs a backend, fully releasing any previous one.
    pub fn attach(&mut self, b: B)
        ensures
            final(self).backend == Some(b),
    {
        self.backend = Some(b);
    }

    /// Whether a backend is attached.
    pub fn is_attached(&self) -> (r: bool)
        ensures
            r == (self.backend is Some),
    {
        self.backend.is_some()
    }

    /// The stored version marker of the attached store, or the distinct
    /// "not initialized" error while the slot is empty.
    pub fn current_version(&self) -> (r: Result<String, MigrateError>)
        ensures
            self.backend is None ==> r == Err::<String, MigrateError>(
                MigrateError::NotInitialized,
            ),
            self.backend matches Some(b) ==> ((r matches Ok(t) ==> t@ == b.model().version) && (
            r matches Err(e) ==> e matches MigrateError::Backend(_))),
    {
        match self.backend.as_ref() {
            None => Err(MigrateError::NotInitialized),
            Some(b) => match b.get_version() {
                Ok(t) => Ok(t),
                Err(e) => Err(MigrateError::Backend(e)),
            },
        }
    }

    /// Runs an administrative migration in the given direction against the
    /// attached store, serialized through this single holder.
    pub fn migrate_to(
        &mut self,
        direction: Direction,
        target: Option<&str>,
        cat: &Vec<Migration>,
    ) -> (r: Result<(), MigrateError>)
        ensures
            old(self).backend is None ==> final(self).backend is None && r == Err::<
                (),
                MigrateError,
            >(MigrateError::NotInitialized),
            old(self).backend matches Some(b0) ==> final(self).backend matches Some(b1)
                && migrate_to_outcome(direction, b0.model(), target, cat@, b1.model(), r),
    {
        match self.backend.take() {
            None => Err(MigrateError::NotInitialized),
            Some(mut b) => {
                let r = match direction {
                    Direction::Up => migrate_up(&mut b, target, cat),
                    Direction::Down => migrate_down(&mut b, target, cat),
                };
                self.backend = Some(b);
                r
            },
        }
    }
}

impl<B: Backend> Default for DbState<B> {
    /// The default slot is empty.
    fn default() -> (r: DbState<B>)
        ensures
            r.backend is None,
    {
        DbState { backend: None }
    }
}

} // verus!

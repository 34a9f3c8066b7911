//! Sync orchestration: the strictly sequential connect → drop → create →
//! insert sequence that replaces a target table's contents.  This module
//! decides; the caller performs each database round-trip and reports its
//! outcome.  A drop failure is absorbed by design (re-syncing a table that
//! does not exist yet must not fail); every other failure aborts the sync
//! with an error classified by step.  There is no transaction around the
//! three statements and no retry anywhere.

use vstd::prelude::*;

use crate::cell::{Cell, SyncError};
use crate::sql::{
    create_statement, create_stmt_spec, drop_statement, drop_stmt_spec, insert_statement,
    insert_stmt_spec,
};
use crate::table::{header_name_of, table_from_cells, CanonicalTable, TableView};

verus! {

/// The three statements that replace one target table's contents.
pub struct SyncPlan {
    /// Best-effort: a failure executing this statement is swallowed.
    pub drop_stmt: String,
    /// Must succeed; failure is a [`SyncError::SchemaFailure`].
    pub create_stmt: String,
    /// Must succeed when present; failure is a [`SyncError::InsertFailure`].
    /// Absent for a table with zero data rows.
    pub insert_stmt: Option<String>,
}

/// Generates the statement plan that replaces table `name` with the
/// contents of `t`.
pub fn plan_sync(t: &CanonicalTable, name: &str) -> (p: SyncPlan)
    ensures
        p.drop_stmt@ == drop_stmt_spec(name@),
        p.create_stmt@ == create_stmt_spec(t@, name@),
        t@.rows.len() == 0 ==> p.insert_stmt is None,
        t@.rows.len() > 0 ==> (p.insert_stmt matches Some(s) && s@ == insert_stmt_spec(
            t@,
            name@,
        )),
{
    SyncPlan {
        drop_stmt: drop_statement(name),
        create_stmt: create_statement(t, name),
        insert_stmt: insert_statement(t, name),
    }
}

/// The table a raw grid splits into: row 0 contributes the column names,
/// the remaining rows are the data.
pub open spec fn split_view(g: Seq<Seq<crate::cell::CellVal>>) -> TableView
    recommends
        g.len() > 0,
{
    TableView { headers: g[0].map_values(|c: crate::cell::CellVal| header_name_of(c)), rows: g.drop_first() }
}

/// The whole engine in one step: splits a raw grid into a canonical table
/// and generates its statement plan.  Fails with `MalformedInput` exactly
/// when the grid has no header row or a data row of the wrong length.
pub fn plan_from_grid(grid: Vec<Vec<Cell>>, name: &str) -> (r: Result<SyncPlan, SyncError>)
    ensures
        match r {
            Ok(p) => {
                &&& grid.deep_view().len() > 0
                &&& p.drop_stmt@ == drop_stmt_spec(name@)
                &&& p.create_stmt@ == create_stmt_spec(split_view(grid.deep_view()), name@)
                &&& grid.deep_view().len() == 1 ==> p.insert_stmt is None
                &&& grid.deep_view().len() > 1 ==> (p.insert_stmt matches Some(s) && s@
                    == insert_stmt_spec(split_view(grid.deep_view()), name@))
            },
            Err(e) => e == SyncError::MalformedInput && (grid.deep_view().len() == 0
                || exists|i: int|
                1 <= i < grid.deep_view().len() && (#[trigger] grid.deep_view()[i]).len()
                    != grid.deep_view()[0].len()),
        },
{
    let ghost gv = grid.deep_view();
    match table_from_cells(grid) {
        Ok(t) => {
            proof {
                assert(t@ == split_view(gv));
            }
            Ok(plan_sync(&t, name))
        },
        Err(e) => Err(e),
    }
}

/// The state of one sync request.  Each `Await` state names the round-trip
/// whose outcome the caller reports next.
#[derive(Clone, Copy, Debug, PartialEq, Eq, Structural)]
pub enum SyncState {
    /// Connecting to the target database.
    AwaitConnect,
    /// Executing the best-effort drop statement.
    AwaitDrop,
    /// Executing the create statement.
    AwaitCreate,
    /// Executing the insert statement.
    AwaitInsert,
    /// The sync finished successfully.
    Complete,
    /// The sync aborted with the given error.
    Aborted(SyncError),
}

/// The outcome of one database round-trip, as the caller observed it.
#[derive(Clone, Copy, Debug, PartialEq, Eq, Structural)]
pub enum DbOutcome {
    Succeeded,
    Failed,
}

/// The transition policy of the sync state machine.  A drop outcome never
/// matters; a connect, create or insert failure aborts with the error of
/// its step; `has_insert` is whether the plan carries an insert statement.
pub open spec fn sync_next_spec(state: SyncState, outcome: DbOutcome, has_insert: bool) -> SyncState {
    match state {
        SyncState::AwaitConnect => match outcome {
            DbOutcome::Succeeded => SyncState::AwaitDrop,
            DbOutcome::Failed => SyncState::Aborted(SyncError::ConnectionFailure),
        },
        SyncState::AwaitDrop => SyncState::AwaitCreate,
        SyncState::AwaitCreate => match outcome {
            DbOutcome::Succeeded => if has_insert {
                SyncState::AwaitInsert
            } else {
                SyncState::Complete
            },
            DbOutcome::Failed => SyncState::Aborted(SyncError::SchemaFailure),
        },
        SyncState::AwaitInsert => match outcome {
            DbOutcome::Succeeded => SyncState::Complete,
            DbOutcome::Failed => SyncState::Aborted(SyncError::InsertFailure),
        },
        SyncState::Complete => SyncState::Complete,
        SyncState::Aborted(e) => SyncState::Aborted(e),
    }
}

/// Advances the sync state machine by one reported outcome.
pub fn sync_next(state: SyncState, outcome: DbOutcome, has_insert: bool) -> (next: SyncState)
    ensures
        next == sync_next_spec(state, outcome, has_insert),
{
    match state {
        SyncState::AwaitConnect => match outcome {
            DbOutcome::Succeeded => SyncState::AwaitDrop,
            DbOutcome::Failed => SyncState::Aborted(SyncError::ConnectionFailure),
        },
        SyncState::AwaitDrop => SyncState::AwaitCreate,
        SyncState::AwaitCreate => match outcome {
            DbOutcome::Succeeded => if has_insert {
                SyncState::AwaitInsert
            } else {
                SyncState::Complete
            },
            DbOutcome::Failed => SyncState::Aborted(SyncError::SchemaFailure),
        },
        SyncState::AwaitInsert => match outcome {
            DbOutcome::Succeeded => SyncState::Complete,
            DbOutcome::Failed => SyncState::Aborted(SyncError::InsertFailure),
        },
        SyncState::Complete => SyncState::Complete,
        SyncState::Aborted(e) => SyncState::Aborted(e),
    }
}

/// A drop failure is swallowed: from the drop step, both outcomes advance
/// to the create step, and no run of the machine ever aborts on account of
/// the drop statement.
pub proof fn lemma_drop_is_best_effort(outcome: DbOutcome, has_insert: bool)
    ensures
        sync_next_spec(SyncState::AwaitDrop, outcome, has_insert) == SyncState::AwaitCreate,
{
}

} // verus!

//! The embedded backend: how the outcome of each statement that the
//! engine ran becomes one step of a batch result. The row count and rowid
//! that the engine reports are kept only for statements whose SQL is an
//! `INSERT`, `UPDATE` or `DELETE`.
use vstd::prelude::*;

use sqlite3_parser::ast::{Cmd, Stmt};

use crate::proto::{
    self, cols_view, rows_view, BatchResult, BatchResultView, Col, StmtResult, StmtResultView,
};
use crate::value::Value;

verus! {

/// The kind of an SQL command, as far as result metadata depends on it.
#[derive(Debug, PartialEq, Eq)]
pub enum SqlCommand {
    Insert,
    Update,
    Delete,
    Other,
}

/// The kind of the last command of an SQL text, as sqlite3_parser reads it;
/// a text that does not parse is of kind `Other`.
pub uninterp spec fn sql_command_of(sql: Seq<char>) -> SqlCommand;

/// Relies on sqlite3_parser's `Parser`, run through
/// `FallibleIterator::last`: the kind of the last command of the text.
/// Parsing depends on the text alone.
#[verifier::external_body]
fn classify(sql: &str) -> (r: SqlCommand)
    ensures
        r == sql_command_of(sql@),
{
    let bump = sqlite3_parser::Bump::new();
    let parser = sqlite3_parser::lexer::sql::Parser::new(&bump, sql.as_bytes());
    let kind = match sqlite3_parser::FallibleIterator::last(parser) {
        Ok(Some(Cmd::Stmt(Stmt::Insert { .. }))) => SqlCommand::Insert,
        Ok(Some(Cmd::Stmt(Stmt::Update { .. }))) => SqlCommand::Update,
        Ok(Some(Cmd::Stmt(Stmt::Delete { .. }))) => SqlCommand::Delete,
        _ => SqlCommand::Other,
    };
    kind
}

/// What the engine reported for one statement.
pub enum StepOutcome {
    /// The statement ran: its columns, its rows, and the connection's last
    /// insert rowid and change count right after it.
    Executed { cols: Vec<Col>, rows: Vec<Vec<Value>>, last_insert_rowid: i64, changes: u64 },
    /// The engine rejected the statement with this message.
    Failed { message: String },
}

/// The result of a statement of kind `kind` that ran: the rowid only for an
/// insertion, the change count only for an insertion, update or deletion.
pub open spec fn step_result_of(
    kind: SqlCommand,
    cols: Seq<Col>,
    rows: Seq<Vec<Value>>,
    last_insert_rowid: i64,
    changes: u64,
) -> StmtResultView {
    StmtResultView {
        cols: cols_view(cols),
        rows: rows_view(rows),
        affected_row_count: match kind {
            SqlCommand::Other => 0,
            _ => changes,
        },
        last_insert_rowid: match kind {
            SqlCommand::Insert => Some(last_insert_rowid),
            _ => None,
        },
    }
}

/// The step that the outcome of statement `sql` adds to a batch result.
pub open spec fn step_of(sql: Seq<char>, outcome: StepOutcome) -> (
    Option<StmtResultView>,
    Option<Seq<char>>,
) {
    match outcome {
        StepOutcome::Executed { cols, rows, last_insert_rowid, changes } => (
            Some(step_result_of(sql_command_of(sql), cols@, rows@, last_insert_rowid, changes)),
            None,
        ),
        StepOutcome::Failed { message } => (None, Some(message@)),
    }
}

/// An empty batch result, to which the steps are added in order.
pub fn empty_batch() -> (r: BatchResult)
    ensures
        r@.well_formed(),
        r@.step_results.len() == 0,
{
    let r = BatchResult { step_results: Vec::new(), step_errors: Vec::new() };
    assert(r@.step_results =~= Seq::<Option<StmtResultView>>::empty());
    assert(r@.step_errors =~= Seq::<Option<Seq<char>>>::empty());
    r
}

/// Adds the outcome of statement `sql` as the next step of `batch`. A
/// failed statement takes only its own step: the steps before it stay as
/// they were, and the statements after it still get steps of their own.
pub fn record_step(batch: &mut BatchResult, sql: &str, outcome: StepOutcome)
    requires
        old(batch)@.well_formed(),
    ensures
        final(batch)@.well_formed(),
        final(batch)@.step_results == old(batch)@.step_results.push(step_of(sql@, outcome).0),
        final(batch)@.step_errors == old(batch)@.step_errors.push(step_of(sql@, outcome).1),
{
    let ghost before: BatchResultView = batch@;
    match outcome {
        StepOutcome::Executed { cols, rows, last_insert_rowid, changes } => {
            let kind = classify(sql);
            let affected_row_count = match kind {
                SqlCommand::Other => 0,
                _ => changes,
            };
            let rowid = match kind {
                SqlCommand::Insert => Some(last_insert_rowid),
                _ => None,
            };
            let res = StmtResult { cols, rows, affected_row_count, last_insert_rowid: rowid };
            batch.step_results.push(Some(res));
            batch.step_errors.push(None);
        },
        StepOutcome::Failed { message } => {
            batch.step_results.push(None);
            batch.step_errors.push(Some(proto::Error { message }));
        },
    }
    assert(batch@.step_results =~= before.step_results.push(step_of(sql@, outcome).0));
    assert(batch@.step_errors =~= before.step_errors.push(step_of(sql@, outcome).1));
}

} // verus!

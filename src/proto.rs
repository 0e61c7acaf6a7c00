//! The result model that every backend produces: per-statement results and
//! per-step errors of a batch.
use vstd::prelude::*;

use crate::value::{Value, ValueView};

verus! {

/// A result column; some protocol paths omit the name.
pub struct Col {
    pub name: Option<String>,
}

/// The error that the database reported for one statement.
pub struct Error {
    pub message: String,
}

/// The raw result of one statement.
pub struct StmtResult {
    pub cols: Vec<Col>,
    pub rows: Vec<Vec<Value>>,
    pub affected_row_count: u64,
    pub last_insert_rowid: Option<i64>,
}

/// The outcome of a batch: for each submitted statement, either a result or
/// an error.
pub struct BatchResult {
    pub step_results: Vec<Option<StmtResult>>,
    pub step_errors: Vec<Option<Error>>,
}

pub struct StmtResultView {
    pub cols: Seq<Option<Seq<char>>>,
    pub rows: Seq<Seq<ValueView>>,
    pub affected_row_count: u64,
    pub last_insert_rowid: Option<i64>,
}

pub struct BatchResultView {
    pub step_results: Seq<Option<StmtResultView>>,
    pub step_errors: Seq<Option<Seq<char>>>,
}

pub open spec fn values_view(values: Seq<Value>) -> Seq<ValueView> {
    values.map_values(|v: Value| v@)
}

pub open spec fn opt_string_view(s: Option<String>) -> Option<Seq<char>> {
    match s {
        Some(x) => Some(x@),
        None => None,
    }
}

/// The views of a list of columns.
pub open spec fn cols_view(cols: Seq<Col>) -> Seq<Option<Seq<char>>> {
    cols.map_values(|c: Col| c@)
}

/// The views of a list of rows.
pub open spec fn rows_view(rows: Seq<Vec<Value>>) -> Seq<Seq<ValueView>> {
    rows.map_values(|r: Vec<Value>| values_view(r@))
}

impl View for Col {
    type V = Option<Seq<char>>;

    open spec fn view(&self) -> Option<Seq<char>> {
        opt_string_view(self.name)
    }
}

impl View for StmtResult {
    type V = StmtResultView;

    open spec fn view(&self) -> StmtResultView {
        StmtResultView {
            cols: cols_view(self.cols@),
            rows: rows_view(self.rows@),
            affected_row_count: self.affected_row_count,
            last_insert_rowid: self.last_insert_rowid,
        }
    }
}

pub open spec fn opt_result_view(r: Option<StmtResult>) -> Option<StmtResultView> {
    match r {
        Some(x) => Some(x@),
        None => None,
    }
}

pub open spec fn opt_error_view(e: Option<Error>) -> Option<Seq<char>> {
    match e {
        Some(x) => Some(x.message@),
        None => None,
    }
}

impl View for BatchResult {
    type V = BatchResultView;

    open spec fn view(&self) -> BatchResultView {
        BatchResultView {
            step_results: self.step_results@.map_values(|r: Option<StmtResult>| opt_result_view(r)),
            step_errors: self.step_errors@.map_values(|e: Option<Error>| opt_error_view(e)),
        }
    }
}

impl BatchResultView {
    /// One entry of each kind per step, and exactly one of the two filled.
    pub open spec fn well_formed(self) -> bool {
        &&& self.step_results.len() == self.step_errors.len()
        &&& forall|i: int|
            0 <= i < self.step_results.len() ==> (#[trigger] self.step_results[i] is Some
                <==> self.step_errors[i] is None)
    }
}

} // verus!

//! Rows and result sets as the caller sees them.
use vstd::prelude::*;

use crate::error::{Error, Misuse};
use crate::proto::{values_view, Col, StmtResult};
use crate::value::{Value, ValueView};

verus! {

/// A row returned from the database: its cells in column order, and the
/// column names by which the cells can be looked up.
pub struct Row {
    values: Vec<Value>,
    columns: Vec<String>,
}

pub struct RowView {
    pub values: Seq<ValueView>,
    pub columns: Seq<Seq<char>>,
}

pub open spec fn strings_view(s: Seq<String>) -> Seq<Seq<char>> {
    s.map_values(|x: String| x@)
}

impl View for Row {
    type V = RowView;

    closed spec fn view(&self) -> RowView {
        RowView { values: values_view(self.values@), columns: strings_view(self.columns@) }
    }
}

/// The cell that a column name maps to: the cell of the last column of that
/// name, where a later column of the same name overrides an earlier one.
/// A column without a cell maps to nothing.
pub open spec fn lookup(columns: Seq<Seq<char>>, values: Seq<ValueView>, name: Seq<char>) -> Option<
    ValueView,
>
    decreases columns.len(),
{
    if columns.len() == 0 {
        None
    } else {
        let i = columns.len() - 1;
        if i < values.len() && columns[i] == name {
            Some(values[i])
        } else {
            lookup(columns.drop_last(), values, name)
        }
    }
}

pub open spec fn opt_ref_view(v: Option<&Value>) -> Option<ValueView> {
    match v {
        Some(x) => Some(x@),
        None => None,
    }
}

impl Row {
    /// Builds a row from its cells and the names of the columns they stand in.
    pub fn new(columns: Vec<String>, values: Vec<Value>) -> (r: Row)
        ensures
            r@ == (RowView { values: values_view(values@), columns: strings_view(columns@) }),
    {
        Row { values, columns }
    }

    /// The cells of the row, in column order.
    pub fn values(&self) -> (r: &Vec<Value>)
        ensures
            values_view(r@) == self@.values,
    {
        &self.values
    }

    /// The names of the columns, in order.
    pub fn columns(&self) -> (r: &Vec<String>)
        ensures
            strings_view(r@) == self@.columns,
    {
        &self.columns
    }

    /// The cell that the column `name` maps to.
    pub fn get(&self, name: &str) -> (r: Option<&Value>)
        ensures
            opt_ref_view(r) == lookup(self@.columns, self@.values, name@),
    {
        let key = name.to_string();
        let mut i: usize = self.columns.len();
        assert(self@.columns.take(i as int) =~= self@.columns);
        while i > 0
            invariant
                i <= self.columns@.len(),
                key@ == name@,
                lookup(self@.columns, self@.values, name@) == lookup(
                    self@.columns.take(i as int),
                    self@.values,
                    name@,
                ),
            decreases i,
        {
            let j = i - 1;
            proof {
                let cols = self@.columns.take(i as int);
                assert(cols.drop_last() =~= self@.columns.take(j as int));
                assert(cols[j as int] == self@.columns[j as int]);
            }
            if j < self.values.len() && self.columns[j] == key {
                return Some(&self.values[j]);
            }
            i = j;
        }
        None
    }

    /// The cell at `index`, or a misuse error past the last cell.
    pub fn try_get(&self, index: usize) -> (r: Result<&Value, Error>)
        ensures
            index < self@.values.len() ==> (r matches Ok(v) && v@ == self@.values[index as int]),
            index >= self@.values.len() ==> r == Err::<&Value, Error>(
                Error::Misuse(Misuse::IndexOutOfBounds { index }),
            ),
    {
        if index < self.values.len() {
            Ok(&self.values[index])
        } else {
            Err(Error::Misuse(Misuse::IndexOutOfBounds { index }))
        }
    }

    /// The cell that the column `col` maps to, or a misuse error where no
    /// column of that name has a cell.
    pub fn try_column(&self, col: &str) -> (r: Result<&Value, Error>)
        ensures
            lookup(self@.columns, self@.values, col@) matches Some(v) ==> (r matches Ok(x) && x@
                == v),
            lookup(self@.columns, self@.values, col@) is None ==> (r matches Err(
                Error::Misuse(Misuse::NoSuchColumn { name }),
            ) && name@ == col@),
    {
        match self.get(col) {
            Some(v) => Ok(v),
            None => Err(Error::Misuse(Misuse::NoSuchColumn { name: col.to_string() })),
        }
    }
}

/// The result of one statement as the caller sees it.
pub struct ResultSet {
    /// Names of the columns; a column without a name has the empty name.
    pub columns: Vec<String>,
    /// One entry per row returned from the database.
    pub rows: Vec<Row>,
    /// How many rows the statement changed.
    pub rows_affected: u64,
    /// The rowid of the last insertion, for an insertion.
    pub last_insert_rowid: Option<i64>,
}

pub struct ResultSetView {
    pub columns: Seq<Seq<char>>,
    pub rows: Seq<RowView>,
    pub rows_affected: u64,
    pub last_insert_rowid: Option<i64>,
}

impl View for ResultSet {
    type V = ResultSetView;

    open spec fn view(&self) -> ResultSetView {
        ResultSetView {
            columns: strings_view(self.columns@),
            rows: self.rows@.map_values(|r: Row| r@),
            rows_affected: self.rows_affected,
            last_insert_rowid: self.last_insert_rowid,
        }
    }
}

/// The name under which a column is shown: its name, or the empty name.
pub open spec fn column_name(c: Option<Seq<char>>) -> Seq<char> {
    match c {
        Some(n) => n,
        None => Seq::empty(),
    }
}

/// The result set that a raw statement result stands for: every row is
/// named by the columns of the result.
pub open spec fn result_set_of(r: crate::proto::StmtResultView) -> ResultSetView {
    let columns = r.cols.map_values(|c: Option<Seq<char>>| column_name(c));
    ResultSetView {
        columns,
        rows: r.rows.map_values(|values: Seq<ValueView>| RowView { values, columns }),
        rows_affected: r.affected_row_count,
        last_insert_rowid: r.last_insert_rowid,
    }
}

fn column_names(cols: &Vec<Col>) -> (r: Vec<String>)
    ensures
        strings_view(r@) == cols@.map_values(|c: Col| column_name(c@)),
{
    let mut r: Vec<String> = Vec::new();
    let mut i: usize = 0;
    while i < cols.len()
        invariant
            i <= cols@.len(),
            r@.len() == i,
            forall|k: int| 0 <= k < i ==> #[trigger] r@[k]@ == column_name(cols@[k]@),
        decreases cols@.len() - i,
    {
        let name = match &cols[i].name {
            Some(n) => n.clone(),
            None => String::new(),
        };
        r.push(name);
        i = i + 1;
    }
    assert(strings_view(r@) =~= cols@.map_values(|c: Col| column_name(c@)));
    r
}

fn clone_names(names: &Vec<String>) -> (r: Vec<String>)
    ensures
        strings_view(r@) == strings_view(names@),
{
    let r = names.clone();
    assert(strings_view(r@) =~= strings_view(names@));
    r
}

fn clone_values(values: &Vec<Value>) -> (r: Vec<Value>)
    ensures
        values_view(r@) == values_view(values@),
{
    let r = values.clone();
    assert(values_view(r@) =~= values_view(values@));
    r
}

impl ResultSet {
    /// Turns a raw statement result into the caller's result set.
    pub fn from_stmt_result(value: &StmtResult) -> (r: ResultSet)
        ensures
            r@ == result_set_of(value@),
    {
        let columns = column_names(&value.cols);
        let ghost want = result_set_of(value@);
        assert(strings_view(columns@) =~= want.columns);
        let mut rows: Vec<Row> = Vec::new();
        let mut i: usize = 0;
        while i < value.rows.len()
            invariant
                i <= value.rows@.len(),
                strings_view(columns@) == want.columns,
                want == result_set_of(value@),
                rows@.len() == i,
                forall|k: int| 0 <= k < i ==> #[trigger] rows@[k]@ == want.rows[k],
            decreases value.rows@.len() - i,
        {
            let values = clone_values(&value.rows[i]);
            let row = Row::new(clone_names(&columns), values);
            rows.push(row);
            i = i + 1;
        }
        let r = ResultSet {
            columns,
            rows,
            rows_affected: value.affected_row_count,
            last_insert_rowid: value.last_insert_rowid,
        };
        assert(r@.rows =~= want.rows);
        r
    }
}

} // verus!

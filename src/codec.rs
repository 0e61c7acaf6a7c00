//! The JSON codec of the statement-array protocol. A request is
//! `{"statements": [{"sql": ..., "args": [...]}, ...]}`; the response is an
//! array with one entry per statement, each `{"results": {"columns": [...],
//! "rows": [[...], ...]}}` or `{"error": {"message": ...}}`. Cells are
//! `null`, numbers, strings, or `{"base64": ...}` objects for blobs.
use vstd::prelude::*;

use crate::batch::first_none_from;
use crate::error::{DecodeError, Error};
use crate::proto::{
    self, cols_view, opt_error_view, opt_result_view, rows_view, values_view, BatchResult, BatchResultView, Col,
    StmtResult, StmtResultView,
};
use crate::statement::{Statement, StatementView};
use crate::value::{Value, ValueView};

verus! {

/// A JSON document. A number is kept as an integer where it is one that
/// fits in 64 bits, and as the bit pattern of a 64-bit float otherwise.
#[derive(Debug, PartialEq)]
pub enum Json {
    Null,
    Bool(bool),
    Integer(i64),
    Float(u64),
    Text(String),
    Array(Vec<Json>),
    Object(Vec<(String, Json)>),
}

/// The standard base64 form of the bytes, without padding.
pub uninterp spec fn base64_encoded(b: Seq<u8>) -> Seq<char>;

/// The bytes that a base64 text in the standard alphabet stands for, with
/// or without padding; none for a text that is not base64.
pub uninterp spec fn base64_decoded(s: Seq<char>) -> Option<Seq<u8>>;

/// Relies on base64's `STANDARD_NO_PAD` engine (`Engine::encode`): the
/// standard alphabet, no padding; its output decodes back to the input.
#[verifier::external_body]
fn encode_base64(b: &[u8]) -> (r: String)
    ensures
        r@ == base64_encoded(b@),
        base64_decoded(r@) == Some(b@),
{
    base64::Engine::encode(&base64::engine::general_purpose::STANDARD_NO_PAD, b)
}

/// Relies on base64's `Engine::decode` with the standard alphabet and
/// `DecodePaddingMode::Indifferent`: the decoded bytes, or none where the
/// text is not base64.
#[verifier::external_body]
fn decode_base64(s: &str) -> (r: Option<Vec<u8>>)
    ensures
        match r {
            Some(v) => base64_decoded(s@) == Some(v@),
            None => base64_decoded(s@) is None,
        },
{
    let config = base64::engine::GeneralPurposeConfig::new().with_decode_padding_mode(
        base64::engine::DecodePaddingMode::Indifferent,
    );
    let engine = base64::engine::GeneralPurpose::new(&base64::alphabet::STANDARD, config);
    base64::Engine::decode(&engine, s).ok()
}

/// The value of the first member named `key` of an object.
pub open spec fn member(fields: Seq<(String, Json)>, key: Seq<char>) -> Option<Json>
    decreases fields.len(),
{
    if fields.len() == 0 {
        None
    } else if fields[0].0@ == key {
        Some(fields[0].1)
    } else {
        member(fields.drop_first(), key)
    }
}

/// Whether `j` is the JSON form of the value `v`.
pub open spec fn encodes(j: Json, v: ValueView) -> bool {
    match v {
        ValueView::Null => j == Json::Null,
        ValueView::Integer(i) => j == Json::Integer(i),
        ValueView::Float(b) => j == Json::Float(b),
        ValueView::Text(s) => j matches Json::Text(t) && t@ == s,
        ValueView::Blob(b) => match j {
            Json::Object(fields) => {
                &&& fields@.len() == 1
                &&& fields@[0].0@ == "base64"@
                &&& fields@[0].1 matches Json::Text(t)
                &&& t@ == base64_encoded(b)
                &&& base64_decoded(t@) == Some(b)
            },
            _ => false,
        },
    }
}

/// The value that a JSON cell stands for: `null`, an integer, a float, a
/// string, or a `{"base64": ...}` object; nothing else is a cell.
pub open spec fn cell_value(j: Json) -> Option<ValueView> {
    match j {
        Json::Null => Some(ValueView::Null),
        Json::Integer(i) => Some(ValueView::Integer(i)),
        Json::Float(b) => Some(ValueView::Float(b)),
        Json::Text(s) => Some(ValueView::Text(s@)),
        Json::Object(fields) => match member(fields@, "base64"@) {
            Some(Json::Text(s)) => match base64_decoded(s@) {
                Some(b) => Some(ValueView::Blob(b)),
                None => None,
            },
            _ => None,
        },
        _ => None,
    }
}

fn key(s: &str) -> (r: String)
    ensures
        r@ == s@,
{
    s.to_string()
}

/// The JSON form of a value: a blob becomes a `{"base64": ...}` object.
pub fn encode_value(v: &Value) -> (r: Json)
    ensures
        encodes(r, v@),
{
    match v {
        Value::Null => Json::Null,
        Value::Integer { value } => Json::Integer(*value),
        Value::Float { bits } => Json::Float(*bits),
        Value::Text { value } => Json::Text(value.clone()),
        Value::Blob { value } => {
            let text = encode_base64(value.as_slice());
            let mut fields: Vec<(String, Json)> = Vec::new();
            fields.push((key("base64"), Json::Text(text)));
            Json::Object(fields)
        },
    }
}

/// The value that a JSON cell stands for, if it is a cell.
pub fn decode_cell(j: &Json) -> (r: Option<Value>)
    ensures
        match r {
            Some(v) => cell_value(*j) == Some(v@),
            None => cell_value(*j) is None,
        },
{
    match j {
        Json::Null => Some(Value::Null),
        Json::Integer(i) => Some(Value::Integer { value: *i }),
        Json::Float(b) => Some(Value::Float { bits: *b }),
        Json::Text(s) => Some(Value::Text { value: s.clone() }),
        Json::Object(fields) => match find_member(fields, "base64") {
            Some(Json::Text(s)) => match decode_base64(s.as_str()) {
                Some(b) => Some(Value::Blob { value: b }),
                None => None,
            },
            _ => None,
        },
        _ => None,
    }
}

/// The value of the first member named `name`.
pub fn find_member<'a>(fields: &'a Vec<(String, Json)>, name: &str) -> (r: Option<&'a Json>)
    ensures
        match r {
            Some(x) => member(fields@, name@) == Some(*x),
            None => member(fields@, name@) is None,
        },
{
    let k = key(name);
    let mut i: usize = 0;
    assert(fields@.subrange(0, fields@.len() as int) =~= fields@);
    while i < fields.len()
        invariant
            i <= fields@.len(),
            k@ == name@,
            member(fields@, name@) == member(fields@.subrange(i as int, fields@.len() as int), name@),
        decreases fields@.len() - i,
    {
        let ghost rest = fields@.subrange(i as int, fields@.len() as int);
        assert(rest.drop_first() =~= fields@.subrange(i + 1, fields@.len() as int));
        if fields[i].0 == k {
            return Some(&fields[i].1);
        }
        i = i + 1;
    }
    None
}

/// Encoding a value and decoding the result gives the value back; integers
/// and floats stay apart, even at zero.
pub proof fn lemma_value_round_trip(v: ValueView, j: Json)
    requires
        encodes(j, v),
    ensures
        cell_value(j) == Some(v),
{
    if let ValueView::Blob(b) = v {
        let fields = j->Object_0@;
        reveal_strlit("base64");
        assert(member(fields, "base64"@) == Some(fields[0].1));
    }
}

/// Whether `j` is the JSON form of the statement `s`.
pub open spec fn encodes_statement(j: Json, s: StatementView) -> bool {
    match j {
        Json::Object(fields) => {
            &&& fields@.len() == 2
            &&& fields@[0].0@ == "sql"@
            &&& fields@[0].1 matches Json::Text(t) && t@ == s.sql
            &&& fields@[1].0@ == "args"@
            &&& fields@[1].1 matches Json::Array(a) && a@.len() == s.args.len() && forall|i: int|
                0 <= i < a@.len() ==> #[trigger] encodes(a@[i], s.args[i])
        },
        _ => false,
    }
}

/// The JSON form of a statement: `{"sql": ..., "args": [...]}`.
pub fn encode_statement(s: &Statement) -> (r: Json)
    ensures
        encodes_statement(r, s@),
{
    let mut args: Vec<Json> = Vec::new();
    let mut i: usize = 0;
    while i < s.args.len()
        invariant
            i <= s.args@.len(),
            args@.len() == i,
            forall|k: int| 0 <= k < i ==> #[trigger] encodes(args@[k], s@.args[k]),
        decreases s.args@.len() - i,
    {
        args.push(encode_value(&s.args[i]));
        i = i + 1;
    }
    let mut fields: Vec<(String, Json)> = Vec::new();
    fields.push((key("sql"), Json::Text(s.sql.clone())));
    fields.push((key("args"), Json::Array(args)));
    Json::Object(fields)
}

/// Whether `j` is the body of a request for the statements `s`.
pub open spec fn encodes_statements(j: Json, s: Seq<StatementView>) -> bool {
    match j {
        Json::Object(fields) => {
            &&& fields@.len() == 1
            &&& fields@[0].0@ == "statements"@
            &&& fields@[0].1 matches Json::Array(a) && a@.len() == s.len() && forall|i: int|
                0 <= i < a@.len() ==> #[trigger] encodes_statement(a@[i], s[i])
        },
        _ => false,
    }
}

/// The body of a request: `{"statements": [...]}`, one entry per statement
/// in order.
pub fn encode_statements(stmts: &Vec<Statement>) -> (r: Json)
    ensures
        encodes_statements(r, stmts@.map_values(|s: Statement| s@)),
{
    let mut list: Vec<Json> = Vec::new();
    let mut i: usize = 0;
    while i < stmts.len()
        invariant
            i <= stmts@.len(),
            list@.len() == i,
            forall|k: int| 0 <= k < i ==> #[trigger] encodes_statement(list@[k], stmts@[k]@),
        decreases stmts@.len() - i,
    {
        list.push(encode_statement(&stmts[i]));
        i = i + 1;
    }
    let mut fields: Vec<(String, Json)> = Vec::new();
    fields.push((key("statements"), Json::Array(list)));
    Json::Object(fields)
}

/// The first position at or after `i` that holds an error.
pub open spec fn first_err_from<T, E>(s: Seq<Result<T, E>>, i: int) -> Option<int>
    decreases s.len() - i,
{
    if i < 0 || i >= s.len() {
        None
    } else if s[i] is Err {
        Some(i)
    } else {
        first_err_from(s, i + 1)
    }
}

/// The values of a list of cells, each decoded on its own.
pub open spec fn cell_values(cells: Seq<Json>) -> Seq<Option<ValueView>> {
    cells.map_values(|c: Json| cell_value(c))
}

/// The names of a list of columns, each decoded on its own.
pub open spec fn column_texts(cols: Seq<Json>) -> Seq<Option<Seq<char>>> {
    cols.map_values(|c: Json| column_text(c))
}

/// The values of a list of decoded cells.
pub open spec fn unwrap_cells(vals: Seq<Option<ValueView>>) -> Seq<ValueView> {
    vals.map_values(|o: Option<ValueView>| o->Some_0)
}

/// The cells of a list of decoded rows.
pub open spec fn ok_rows(decoded: Seq<Result<Seq<ValueView>, DecodeError>>) -> Seq<Seq<ValueView>> {
    decoded.map_values(|d: Result<Seq<ValueView>, DecodeError>| d->Ok_0)
}

/// The step results of a list of decoded entries.
pub open spec fn entry_results(
    decoded: Seq<Result<(Option<StmtResultView>, Option<Seq<char>>), DecodeError>>,
) -> Seq<Option<StmtResultView>> {
    decoded.map_values(
        |d: Result<(Option<StmtResultView>, Option<Seq<char>>), DecodeError>| d->Ok_0.0,
    )
}

/// The step errors of a list of decoded entries.
pub open spec fn entry_errors(
    decoded: Seq<Result<(Option<StmtResultView>, Option<Seq<char>>), DecodeError>>,
) -> Seq<Option<Seq<char>>> {
    decoded.map_values(
        |d: Result<(Option<StmtResultView>, Option<Seq<char>>), DecodeError>| d->Ok_0.1,
    )
}

/// The name of a column, which must be a string.
pub open spec fn column_text(j: Json) -> Option<Seq<char>> {
    match j {
        Json::Text(s) => Some(s@),
        _ => None,
    }
}

/// The cells of row `row` of result `result`: an array with one decodable
/// cell per column.
pub open spec fn row_spec(j: Json, ncols: int, result: usize, row: usize) -> Result<
    Seq<ValueView>,
    DecodeError,
> {
    match j {
        Json::Array(cells) => if cells@.len() != ncols {
            Err(DecodeError::Row { result, row })
        } else {
            let vals = cell_values(cells@);
            match first_none_from(vals, 0) {
                Some(k) => Err(DecodeError::Cell { result, row, cell: k as usize }),
                None => Ok(unwrap_cells(vals)),
            }
        },
        _ => Err(DecodeError::Row { result, row }),
    }
}

/// The rows of result `result`, each decoded on its own.
pub open spec fn rows_spec(rows: Seq<Json>, ncols: int, result: usize) -> Seq<
    Result<Seq<ValueView>, DecodeError>,
> {
    Seq::new(rows.len(), |k: int| row_spec(rows[k], ncols, result, k as usize))
}

/// The statement result that a `results` object stands for. The protocol
/// reports neither a change count nor a rowid.
pub open spec fn results_spec(fields: Seq<(String, Json)>, result: usize) -> Result<
    StmtResultView,
    DecodeError,
> {
    match (member(fields, "columns"@), member(fields, "rows"@)) {
        (Some(Json::Array(cols)), Some(Json::Array(rows))) => {
            let names = column_texts(cols@);
            match first_none_from(names, 0) {
                Some(c) => Err(DecodeError::Column { result, column: c as usize }),
                None => {
                    let decoded = rows_spec(rows@, cols@.len() as int, result);
                    match first_err_from(decoded, 0) {
                        Some(k) => Err(decoded[k]->Err_0),
                        None => Ok(
                            StmtResultView {
                                cols: names,
                                rows: ok_rows(decoded),
                                affected_row_count: 0,
                                last_insert_rowid: None,
                            },
                        ),
                    }
                },
            }
        },
        _ => Err(DecodeError::ResultShape { result }),
    }
}

/// The step that entry `result` of a response stands for: an error with its
/// message, or a statement result.
pub open spec fn entry_spec(j: Json, result: usize) -> Result<
    (Option<StmtResultView>, Option<Seq<char>>),
    DecodeError,
> {
    match j {
        Json::Object(fields) => match member(fields@, "error"@) {
            Some(Json::Object(ef)) => match member(ef@, "message"@) {
                Some(Json::Text(m)) => Ok((None, Some(m@))),
                _ => Err(DecodeError::ResultShape { result }),
            },
            Some(_) => Err(DecodeError::ResultShape { result }),
            None => match member(fields@, "results"@) {
                Some(Json::Object(rf)) => match results_spec(rf@, result) {
                    Ok(r) => Ok((Some(r), None)),
                    Err(e) => Err(e),
                },
                _ => Err(DecodeError::ResultShape { result }),
            },
        },
        _ => Err(DecodeError::ResultShape { result }),
    }
}

/// The entries of a response, each decoded on its own.
pub open spec fn entries_spec(entries: Seq<Json>) -> Seq<
    Result<(Option<StmtResultView>, Option<Seq<char>>), DecodeError>,
> {
    Seq::new(entries.len(), |i: int| entry_spec(entries[i], i as usize))
}

/// The batch result that a response to `n` statements stands for; the first
/// entry that does not decode decides the error.
pub open spec fn response_spec(j: Json, n: usize) -> Result<BatchResultView, DecodeError> {
    match j {
        Json::Array(entries) => if entries@.len() != n {
            Err(DecodeError::ResultCount { expected: n, actual: entries@.len() as usize })
        } else {
            let decoded = entries_spec(entries@);
            match first_err_from(decoded, 0) {
                Some(i) => Err(decoded[i]->Err_0),
                None => Ok(
                    BatchResultView {
                        step_results: entry_results(decoded),
                        step_errors: entry_errors(decoded),
                    },
                ),
            }
        },
        _ => Err(DecodeError::NotAnArray),
    }
}

fn decode_row(j: &Json, ncols: usize, result: usize, row: usize) -> (r: Result<
    Vec<Value>,
    DecodeError,
>)
    ensures
        match row_spec(*j, ncols as int, result, row) {
            Ok(v) => r matches Ok(x) && values_view(x@) == v,
            Err(e) => r == Err::<Vec<Value>, DecodeError>(e),
        },
{
    match j {
        Json::Array(cells) => {
            if cells.len() != ncols {
                return Err(DecodeError::Row { result, row });
            }
            let ghost vals = cell_values(cells@);
            let mut out: Vec<Value> = Vec::new();
            let mut i: usize = 0;
            while i < cells.len()
                invariant
                    i <= cells@.len(),
                    vals == cell_values(cells@),
                    *j == Json::Array(*cells),
                    cells@.len() == ncols,
                    out@.len() == i,
                    forall|k: int| 0 <= k < i ==> Some(#[trigger] out@[k]@) == vals[k],
                    first_none_from(vals, 0) == first_none_from(vals, i as int),
                decreases cells@.len() - i,
            {
                match decode_cell(&cells[i]) {
                    Some(v) => {
                        out.push(v);
                    },
                    None => {
                        assert(first_none_from(vals, i as int) == Some(i as int));
                        return Err(DecodeError::Cell { result, row, cell: i });
                    },
                }
                i = i + 1;
            }
            assert(values_view(out@) =~= unwrap_cells(vals));
            Ok(out)
        },
        _ => Err(DecodeError::Row { result, row }),
    }
}

fn decode_columns(cols: &Vec<Json>, result: usize) -> (r: Result<Vec<Col>, DecodeError>)
    ensures
        match first_none_from(column_texts(cols@), 0) {
            Some(c) => r == Err::<Vec<Col>, DecodeError>(
                DecodeError::Column { result, column: c as usize },
            ),
            None => r matches Ok(x) && cols_view(x@) == column_texts(cols@),
        },
{
    let ghost names = column_texts(cols@);
    let mut out: Vec<Col> = Vec::new();
    let mut i: usize = 0;
    while i < cols.len()
        invariant
            i <= cols@.len(),
            names == column_texts(cols@),
            out@.len() == i,
            forall|k: int| 0 <= k < i ==> #[trigger] out@[k]@ == names[k],
            first_none_from(names, 0) == first_none_from(names, i as int),
        decreases cols@.len() - i,
    {
        match &cols[i] {
            Json::Text(s) => {
                out.push(Col { name: Some(s.clone()) });
            },
            _ => {
                assert(first_none_from(names, i as int) == Some(i as int));
                return Err(DecodeError::Column { result, column: i });
            },
        }
        i = i + 1;
    }
    assert(cols_view(out@) =~= names);
    Ok(out)
}

fn decode_results(fields: &Vec<(String, Json)>, result: usize) -> (r: Result<
    StmtResult,
    DecodeError,
>)
    ensures
        match results_spec(fields@, result) {
            Ok(v) => r matches Ok(x) && x@ == v,
            Err(e) => r == Err::<StmtResult, DecodeError>(e),
        },
{
    let (cols, rows) = match (find_member(fields, "columns"), find_member(fields, "rows")) {
        (Some(Json::Array(cols)), Some(Json::Array(rows))) => (cols, rows),
        _ => {
            return Err(DecodeError::ResultShape { result });
        },
    };
    let decoded_cols = decode_columns(cols, result)?;
    let ghost decoded = rows_spec(rows@, cols@.len() as int, result);
    let mut out: Vec<Vec<Value>> = Vec::new();
    let mut k: usize = 0;
    while k < rows.len()
        invariant
            k <= rows@.len(),
            decoded == rows_spec(rows@, cols@.len() as int, result),
            member(fields@, "columns"@) == Some(Json::Array(*cols)),
            member(fields@, "rows"@) == Some(Json::Array(*rows)),
            first_none_from(column_texts(cols@), 0) is None,
            cols_view(decoded_cols@) == column_texts(cols@),
            out@.len() == k,
            forall|i: int| 0 <= i < k ==> #[trigger] decoded[i] is Ok,
            rows_view(out@) == ok_rows(decoded).take(k as int),
            first_err_from(decoded, 0) == first_err_from(decoded, k as int),
        decreases rows@.len() - k,
    {
        let v = match decode_row(&rows[k], cols.len(), result, k) {
            Ok(v) => v,
            Err(e) => {
                assert(first_err_from(decoded, k as int) == Some(k as int));
                return Err(e);
            },
        };
        assert(decoded[k as int] == row_spec(rows@[k as int], cols@.len() as int, result, k));
        out.push(v);
        assert(rows_view(out@) =~= ok_rows(decoded).take(k + 1));
        k = k + 1;
    }
    let r = StmtResult {
        cols: decoded_cols,
        rows: out,
        affected_row_count: 0,
        last_insert_rowid: None,
    };
    assert(ok_rows(decoded).take(k as int) =~= ok_rows(decoded));
    Ok(r)
}

fn decode_entry(j: &Json, result: usize) -> (r: Result<
    (Option<StmtResult>, Option<proto::Error>),
    DecodeError,
>)
    ensures
        match entry_spec(*j, result) {
            Ok(v) => r matches Ok(x) && opt_result_view(x.0) == v.0 && opt_error_view(x.1) == v.1,
            Err(e) => r == Err::<(Option<StmtResult>, Option<proto::Error>), DecodeError>(e),
        },
{
    let fields = match j {
        Json::Object(fields) => fields,
        _ => {
            return Err(DecodeError::ResultShape { result });
        },
    };
    match find_member(fields, "error") {
        Some(Json::Object(ef)) => match find_member(ef, "message") {
            Some(Json::Text(m)) => Ok((None, Some(proto::Error { message: m.clone() }))),
            _ => Err(DecodeError::ResultShape { result }),
        },
        Some(_) => Err(DecodeError::ResultShape { result }),
        None => match find_member(fields, "results") {
            Some(Json::Object(rf)) => {
                let res = decode_results(rf, result)?;
                Ok((Some(res), None))
            },
            _ => Err(DecodeError::ResultShape { result }),
        },
    }
}

/// Decodes the response to a request of `n` statements into a batch result,
/// step by step; a response of another shape is a decode error.
pub fn decode_response(j: &Json, n: usize) -> (r: Result<BatchResult, Error>)
    ensures
        match response_spec(*j, n) {
            Ok(b) => r matches Ok(x) && x@ == b,
            Err(e) => r == Err::<BatchResult, Error>(Error::Decode(e)),
        },
{
    let entries = match j {
        Json::Array(entries) => entries,
        _ => {
            return Err(Error::Decode(DecodeError::NotAnArray));
        },
    };
    if entries.len() != n {
        return Err(Error::Decode(DecodeError::ResultCount { expected: n, actual: entries.len() }));
    }
    let ghost decoded = entries_spec(entries@);
    let mut step_results: Vec<Option<StmtResult>> = Vec::new();
    let mut step_errors: Vec<Option<proto::Error>> = Vec::new();
    let mut i: usize = 0;
    while i < entries.len()
        invariant
            i <= entries@.len(),
            decoded == entries_spec(entries@),
            *j == Json::Array(*entries),
            entries@.len() == n,
            step_results@.len() == i,
            step_errors@.len() == i,
            forall|k: int|
                0 <= k < i ==> decoded[k] is Ok && opt_result_view(#[trigger] step_results@[k])
                    == decoded[k]->Ok_0.0,
            forall|k: int|
                0 <= k < i ==> decoded[k] is Ok && opt_error_view(#[trigger] step_errors@[k])
                    == decoded[k]->Ok_0.1,
            first_err_from(decoded, 0) == first_err_from(decoded, i as int),
        decreases entries@.len() - i,
    {
        match decode_entry(&entries[i], i) {
            Ok((res, err)) => {
                step_results.push(res);
                step_errors.push(err);
            },
            Err(e) => {
                assert(first_err_from(decoded, i as int) == Some(i as int));
                return Err(Error::Decode(e));
            },
        }
        i = i + 1;
    }
    let r = BatchResult { step_results, step_errors };
    assert(r@.step_results =~= entry_results(decoded));
    assert(r@.step_errors =~= entry_errors(decoded));
    Ok(r)
}

} // verus!

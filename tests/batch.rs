use libsql_client::batch::{batch_outcome, statement_outcome, transaction_statements};
use libsql_client::local::{empty_batch, record_step, StepOutcome};
use libsql_client::proto::{self, BatchResult, Col, StmtResult};
use libsql_client::{DecodeError, Error, Statement, Value};

fn ok_step(rows: Vec<Vec<Value>>) -> Option<StmtResult> {
    Some(StmtResult {
        cols: vec![Col { name: Some("x".to_string()) }],
        rows,
        affected_row_count: 0,
        last_insert_rowid: None,
    })
}

fn err_step(message: &str) -> Option<proto::Error> {
    Some(proto::Error { message: message.to_string() })
}

fn executed(cols: &[&str], rows: Vec<Vec<Value>>, rowid: i64, changes: u64) -> StepOutcome {
    StepOutcome::Executed {
        cols: cols.iter().map(|c| Col { name: Some(c.to_string()) }).collect(),
        rows,
        last_insert_rowid: rowid,
        changes,
    }
}

#[test]
fn transaction_statements_wrap_in_begin_and_end() {
    let stmts = vec![Statement::new("SELECT 1"), Statement::new("SELECT 2")];
    let wrapped = transaction_statements(stmts);
    let sql: Vec<&str> = wrapped.iter().map(|s| s.sql.as_str()).collect();
    assert_eq!(sql, vec!["BEGIN", "SELECT 1", "SELECT 2", "END"]);
}

#[test]
fn batch_hides_begin_and_end() {
    let b = BatchResult {
        step_results: vec![
            ok_step(vec![]),
            ok_step(vec![vec![Value::Integer { value: 1 }]]),
            ok_step(vec![vec![Value::Integer { value: 2 }]]),
            ok_step(vec![]),
        ],
        step_errors: vec![None, None, None, None],
    };
    let results = batch_outcome(&b).unwrap();
    assert_eq!(results.len(), 2);
    assert_eq!(results[0].rows[0].values(), &vec![Value::Integer { value: 1 }]);
    assert_eq!(results[1].rows[0].values(), &vec![Value::Integer { value: 2 }]);
    assert_eq!(results[0].columns, vec!["x".to_string()]);
}

#[test]
fn batch_fails_on_first_statement_error() {
    let b = BatchResult {
        step_results: vec![ok_step(vec![]), ok_step(vec![]), None, None, None],
        step_errors: vec![None, None, err_step("no such table: t"), err_step("later"), err_step("end")],
    };
    match batch_outcome(&b) {
        Err(Error::Statement(m)) => assert_eq!(m, "no such table: t"),
        _ => panic!("expected the first statement error"),
    }
}

#[test]
fn batch_ignores_error_of_begin() {
    let b = BatchResult {
        step_results: vec![None, ok_step(vec![]), ok_step(vec![])],
        step_errors: vec![err_step("cannot start a transaction within a transaction"), None, None],
    };
    assert_eq!(batch_outcome(&b).unwrap().len(), 1);
}

#[test]
fn batch_reports_missing_result() {
    let b = BatchResult {
        step_results: vec![ok_step(vec![]), None, ok_step(vec![])],
        step_errors: vec![None, None, None],
    };
    assert!(matches!(
        batch_outcome(&b),
        Err(Error::Decode(DecodeError::MissingResult { step: 1 }))
    ));
}

#[test]
fn empty_batch_has_no_results() {
    let b = BatchResult {
        step_results: vec![ok_step(vec![]), ok_step(vec![])],
        step_errors: vec![None, None],
    };
    assert!(batch_outcome(&b).unwrap().is_empty());
}

#[test]
fn raw_batch_isolates_each_step() {
    let mut b = empty_batch();
    record_step(&mut b, "SELECT 1", executed(&["1"], vec![vec![Value::Integer { value: 1 }]], 0, 0));
    record_step(&mut b, "SELECT * FROM missing", StepOutcome::Failed { message: "no such table: missing".to_string() });
    record_step(&mut b, "SELECT 3", executed(&["3"], vec![vec![Value::Integer { value: 3 }]], 0, 0));
    assert_eq!(b.step_results.len(), 3);
    assert_eq!(b.step_errors.len(), 3);
    assert!(b.step_results[0].is_some() && b.step_errors[0].is_none());
    assert!(b.step_results[1].is_none());
    assert_eq!(b.step_errors[1].as_ref().unwrap().message, "no such table: missing");
    assert!(b.step_results[2].is_some() && b.step_errors[2].is_none());
    assert_eq!(b.step_results[2].as_ref().unwrap().rows, vec![vec![Value::Integer { value: 3 }]]);
}

#[test]
fn row_counts_follow_the_command_kind() {
    let mut b = empty_batch();
    record_step(&mut b, "CREATE TABLE t(id)", executed(&[], vec![], 7, 5));
    record_step(&mut b, "INSERT INTO t VALUES (1)", executed(&[], vec![], 1, 1));
    record_step(&mut b, "UPDATE t SET id = 2", executed(&[], vec![], 1, 1));
    record_step(&mut b, "delete from t", executed(&[], vec![], 1, 1));
    record_step(&mut b, "SELECT * FROM t", executed(&["id"], vec![], 1, 1));
    let r: Vec<&StmtResult> = b.step_results.iter().map(|s| s.as_ref().unwrap()).collect();
    assert_eq!((r[0].affected_row_count, r[0].last_insert_rowid), (0, None));
    assert_eq!((r[1].affected_row_count, r[1].last_insert_rowid), (1, Some(1)));
    assert_eq!((r[2].affected_row_count, r[2].last_insert_rowid), (1, None));
    assert_eq!((r[3].affected_row_count, r[3].last_insert_rowid), (1, None));
    assert_eq!((r[4].affected_row_count, r[4].last_insert_rowid), (0, None));
}

#[test]
fn embedded_batch_create_insert_select() {
    let stmts = vec![
        Statement::new("CREATE TABLE t(id)"),
        Statement::new("INSERT INTO t VALUES (1)"),
        Statement::new("SELECT * FROM t"),
    ];
    let wrapped = transaction_statements(stmts);
    let mut b = empty_batch();
    for stmt in &wrapped {
        let outcome = match stmt.sql.as_str() {
            "SELECT * FROM t" => executed(&["id"], vec![vec![Value::Integer { value: 1 }]], 1, 1),
            "INSERT INTO t VALUES (1)" => executed(&[], vec![], 1, 1),
            _ => executed(&[], vec![], 0, 0),
        };
        record_step(&mut b, &stmt.sql, outcome);
    }
    let results = batch_outcome(&b).unwrap();
    assert_eq!(results.len(), 3);
    assert_eq!(results[1].rows_affected, 1);
    assert_eq!(results[1].last_insert_rowid, Some(1));
    let third = &results[2];
    assert_eq!(third.columns, vec!["id".to_string()]);
    assert_eq!(third.rows.len(), 1);
    assert_eq!(third.rows[0].values(), &vec![Value::Integer { value: 1 }]);
}

#[test]
fn single_statement_outcome() {
    let ok = BatchResult { step_results: vec![ok_step(vec![])], step_errors: vec![None] };
    assert!(statement_outcome(&ok).is_ok());
    let failed = BatchResult { step_results: vec![None], step_errors: vec![err_step("syntax error")] };
    assert_eq!(statement_outcome(&failed).err(), Some(Error::Statement("syntax error".to_string())));
    let empty = BatchResult { step_results: vec![], step_errors: vec![] };
    assert_eq!(
        statement_outcome(&empty).err(),
        Some(Error::Decode(DecodeError::MissingResult { step: 0 }))
    );
}

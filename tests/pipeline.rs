use libsql_client::http::Client;
use libsql_client::pipeline::{Response, ServerMsg, StreamRequest, StreamResponse};
use libsql_client::proto::{self, BatchResult, Col, StmtResult};
use libsql_client::session::SessionTable;
use libsql_client::{DecodeError, Error, Misuse, Statement, Value};

fn execute_ok(baton: Option<&str>, base_url: Option<&str>) -> ServerMsg {
    ServerMsg {
        baton: baton.map(|b| b.to_string()),
        base_url: base_url.map(|u| u.to_string()),
        results: vec![Response::Success(StreamResponse::Execute(StmtResult {
            cols: vec![Col { name: None }],
            rows: vec![vec![Value::Integer { value: 7 }]],
            affected_row_count: 0,
            last_insert_rowid: None,
        }))],
    }
}

#[test]
fn pipeline_url_and_auth() {
    let c = Client::new("example.turso.io/", "tok");
    let req = c.execute_request(Statement::new("SELECT 1"));
    assert_eq!(req.url, "https://example.turso.io/v2/pipeline");
    assert_eq!(req.auth, "Bearer tok");
    assert!(req.msg.baton.is_none());
    let c = Client::new("http://localhost:8080/", "");
    assert_eq!(c.batch_request(vec![]).url, "http://localhost:8080/v2/pipeline");
}

#[test]
fn batch_request_closes_its_stream() {
    let c = Client::new("http://db/", "t");
    let req = c.batch_request(vec![Statement::new("SELECT 1")]);
    assert_eq!(req.msg.requests.len(), 2);
    assert!(matches!(&req.msg.requests[0], StreamRequest::Batch(s) if s.len() == 1));
    assert!(matches!(req.msg.requests[1], StreamRequest::Close));
}

#[test]
fn batch_response_shapes() {
    let batch = BatchResult { step_results: vec![None], step_errors: vec![Some(proto::Error { message: "boom".to_string() })] };
    let ok = ServerMsg {
        baton: None,
        base_url: None,
        results: vec![Response::Success(StreamResponse::Batch(batch)), Response::Success(StreamResponse::Close)],
    };
    let b = Client::batch_response(ok).unwrap();
    assert_eq!(b.step_errors[0].as_ref().unwrap().message, "boom");
    let empty = ServerMsg { baton: None, base_url: None, results: vec![] };
    assert_eq!(
        Client::batch_response(empty).err(),
        Some(Error::Decode(DecodeError::ResponseCount { actual: 0 }))
    );
    let wrong = ServerMsg { baton: None, base_url: None, results: vec![Response::Success(StreamResponse::Close)] };
    assert_eq!(Client::batch_response(wrong).err(), Some(Error::Decode(DecodeError::UnexpectedResponse)));
    let failed = ServerMsg {
        baton: None,
        base_url: None,
        results: vec![Response::Failure(proto::Error { message: "stream expired".to_string() })],
    };
    assert_eq!(Client::batch_response(failed).err(), Some(Error::Statement("stream expired".to_string())));
}

#[test]
fn execute_response_needs_exactly_one_result() {
    let mut two = execute_ok(None, None);
    two.results.push(Response::Success(StreamResponse::Close));
    assert_eq!(
        Client::execute_response(two).err(),
        Some(Error::Decode(DecodeError::ResponseCount { actual: 2 }))
    );
    let rs = Client::execute_response(execute_ok(None, None)).unwrap();
    assert_eq!(rs.columns, vec!["".to_string()]);
    assert_eq!(rs.rows[0].values(), &vec![Value::Integer { value: 7 }]);
}

#[test]
fn transaction_reuses_the_baton() {
    let mut c = Client::new("http://db/", "t");
    let tx = c.begin().unwrap();
    assert_eq!(tx, 1);
    let first = c.tx_request(tx, Statement::new("BEGIN")).unwrap();
    assert!(first.msg.baton.is_none());
    assert_eq!(first.url, "http://db/v2/pipeline");
    c.tx_response(tx, Ok(execute_ok(Some("baton-1"), None))).unwrap();
    let second = c.tx_request(tx, Statement::new("INSERT INTO t VALUES (1)")).unwrap();
    assert_eq!(second.msg.baton.as_deref(), Some("baton-1"));
    c.tx_response(tx, Ok(execute_ok(Some("baton-2"), Some("http://replica/v2/pipeline")))).unwrap();
    let third = c.tx_request(tx, Statement::new("SELECT 1")).unwrap();
    assert_eq!(third.msg.baton.as_deref(), Some("baton-2"));
    assert_eq!(third.url, "http://replica/v2/pipeline");
}

#[test]
fn rollback_releases_the_session() {
    let mut c = Client::new("http://db/", "t");
    let tx = c.begin().unwrap();
    c.tx_response(tx, Ok(execute_ok(Some("b1"), None))).unwrap();
    c.tx_request(tx, Statement::new("ROLLBACK")).unwrap();
    let (outcome, close) = c.end_response(tx, Ok(execute_ok(Some("b2"), None)));
    assert!(outcome.is_ok());
    let close = close.unwrap();
    assert_eq!(close.msg.baton.as_deref(), Some("b2"));
    assert!(matches!(&close.msg.requests[..], [StreamRequest::Close]));
    assert_eq!(
        c.tx_request(tx, Statement::new("SELECT 1")).err(),
        Some(Error::Misuse(Misuse::NoSuchSession { tx_id: tx }))
    );
    let (again, close) = c.end_response(tx, Ok(execute_ok(Some("b3"), None)));
    assert_eq!(again.err(), Some(Error::Misuse(Misuse::NoSuchSession { tx_id: tx })));
    assert!(close.is_none());
    assert_eq!(c.begin().unwrap(), 2);
}

#[test]
fn missing_baton_ends_the_session() {
    let mut c = Client::new("http://db/", "t");
    let tx = c.begin().unwrap();
    assert_eq!(
        c.tx_response(tx, Ok(execute_ok(None, None))).err(),
        Some(Error::Decode(DecodeError::MissingBaton))
    );
    assert!(c.tx_request(tx, Statement::new("SELECT 1")).is_err());
}

#[test]
fn transport_failure_ends_the_session() {
    let mut c = Client::new("http://db/", "t");
    let tx = c.begin().unwrap();
    let out = c.tx_response(tx, Err(Error::Transport("connection reset".to_string())));
    assert_eq!(out.err(), Some(Error::Transport("connection reset".to_string())));
    assert!(c.tx_request(tx, Statement::new("SELECT 1")).is_err());
}

#[test]
fn statement_error_keeps_the_session() {
    let mut c = Client::new("http://db/", "t");
    let tx = c.begin().unwrap();
    let failed = ServerMsg {
        baton: Some("b1".to_string()),
        base_url: None,
        results: vec![Response::Failure(proto::Error { message: "no such table: t".to_string() })],
    };
    assert_eq!(c.tx_response(tx, Ok(failed)).err(), Some(Error::Statement("no such table: t".to_string())));
    assert_eq!(c.tx_request(tx, Statement::new("SELECT 1")).unwrap().msg.baton.as_deref(), Some("b1"));
}

#[test]
fn session_table_ids_are_fresh() {
    let mut t: SessionTable<&str> = SessionTable::new();
    let a = t.open("a").unwrap();
    let b = t.open("b").unwrap();
    assert_eq!((a, b), (1, 2));
    assert_eq!(t.get(a), Some(&"a"));
    assert!(t.update(b, "b2").is_ok());
    assert_eq!(t.get(b), Some(&"b2"));
    assert_eq!(t.release(a), Some("a"));
    assert_eq!(t.get(a), None);
    assert_eq!(t.release(a), None);
    assert_eq!(t.update(a, "x"), Err(Error::Misuse(Misuse::NoSuchSession { tx_id: a })));
    assert_eq!(t.open("c").unwrap(), 3);
}

use libsql_client::client::{backend_for_scheme, local_path, rewrite_libsql_url, Backend};
use libsql_client::codec::{decode_cell, decode_response, encode_statements, encode_value, Json};
use libsql_client::{DecodeError, Error, Misuse, Row, Statement, Value};

fn text(s: &str) -> Json {
    Json::Text(s.to_string())
}

fn object(fields: Vec<(&str, Json)>) -> Json {
    Json::Object(fields.into_iter().map(|(k, v)| (k.to_string(), v)).collect())
}

fn results(columns: Vec<Json>, rows: Vec<Json>) -> Json {
    object(vec![("results", object(vec![("columns", Json::Array(columns)), ("rows", Json::Array(rows))]))])
}

#[test]
fn values_round_trip() {
    let values = vec![
        Value::Null,
        Value::Integer { value: 0 },
        Value::Integer { value: -42 },
        Value::Float { bits: 0.0f64.to_bits() },
        Value::Float { bits: 2.5f64.to_bits() },
        Value::Text { value: "hello".to_string() },
        Value::Blob { value: vec![] },
        Value::Blob { value: vec![1, 2, 3, 255] },
    ];
    for v in values {
        assert_eq!(decode_cell(&encode_value(&v)), Some(v));
    }
}

#[test]
fn integer_and_float_zero_stay_apart() {
    assert_eq!(encode_value(&Value::Integer { value: 0 }), Json::Integer(0));
    assert_eq!(encode_value(&Value::Float { bits: 0.0f64.to_bits() }), Json::Float(0));
    assert_ne!(decode_cell(&Json::Integer(0)), decode_cell(&Json::Float(0)));
}

#[test]
fn blob_is_unpadded_base64() {
    assert_eq!(
        encode_value(&Value::Blob { value: vec![1, 2, 3, 4] }),
        object(vec![("base64", text("AQIDBA"))])
    );
    assert_eq!(
        decode_cell(&object(vec![("base64", text("AQIDBA=="))])),
        Some(Value::Blob { value: vec![1, 2, 3, 4] })
    );
    assert_eq!(decode_cell(&object(vec![("base64", text("not base64!"))])), None);
    assert_eq!(decode_cell(&Json::Bool(true)), None);
    assert_eq!(decode_cell(&Json::Array(vec![])), None);
}

#[test]
fn statements_encode_in_order() {
    let stmts = vec![
        Statement::with_args("INSERT INTO t VALUES (?, ?)", &[Value::Integer { value: 3 }, Value::Null]),
        Statement::new("SELECT 1"),
    ];
    let expected = object(vec![(
        "statements",
        Json::Array(vec![
            object(vec![
                ("sql", text("INSERT INTO t VALUES (?, ?)")),
                ("args", Json::Array(vec![Json::Integer(3), Json::Null])),
            ]),
            object(vec![("sql", text("SELECT 1")), ("args", Json::Array(vec![]))]),
        ]),
    )]);
    assert_eq!(encode_statements(&stmts), expected);
}

#[test]
fn response_decodes_step_by_step() {
    let j = Json::Array(vec![
        results(vec![text("id"), text("name")], vec![Json::Array(vec![Json::Integer(1), text("x")])]),
        object(vec![("error", object(vec![("message", text("no such table: u"))]))]),
    ]);
    let b = decode_response(&j, 2).unwrap();
    let first = b.step_results[0].as_ref().unwrap();
    assert_eq!(first.cols[1].name.as_deref(), Some("name"));
    assert_eq!(first.rows, vec![vec![Value::Integer { value: 1 }, Value::Text { value: "x".to_string() }]]);
    assert!(b.step_errors[0].is_none());
    assert!(b.step_results[1].is_none());
    assert_eq!(b.step_errors[1].as_ref().unwrap().message, "no such table: u");
}

#[test]
fn response_shape_errors() {
    let ok = results(vec![text("a")], vec![Json::Array(vec![Json::Null])]);
    assert_eq!(decode_response(&ok, 1).err(), Some(Error::Decode(DecodeError::NotAnArray)));
    assert_eq!(
        decode_response(&Json::Array(vec![]), 1).err(),
        Some(Error::Decode(DecodeError::ResultCount { expected: 1, actual: 0 }))
    );
    let bad_column = Json::Array(vec![results(vec![text("a"), Json::Integer(1)], vec![])]);
    assert_eq!(
        decode_response(&bad_column, 1).err(),
        Some(Error::Decode(DecodeError::Column { result: 0, column: 1 }))
    );
    let short_row = Json::Array(vec![results(vec![text("a")], vec![Json::Array(vec![Json::Null])]), results(vec![text("a"), text("b")], vec![Json::Array(vec![Json::Null])])]);
    assert_eq!(
        decode_response(&short_row, 2).err(),
        Some(Error::Decode(DecodeError::Row { result: 1, row: 0 }))
    );
    let bad_cell = Json::Array(vec![results(
        vec![text("a")],
        vec![Json::Array(vec![Json::Null]), Json::Array(vec![Json::Bool(false)])],
    )]);
    assert_eq!(
        decode_response(&bad_cell, 1).err(),
        Some(Error::Decode(DecodeError::Cell { result: 0, row: 1, cell: 0 }))
    );
    let bad_error = Json::Array(vec![object(vec![("error", text("oops"))])]);
    assert_eq!(
        decode_response(&bad_error, 1).err(),
        Some(Error::Decode(DecodeError::ResultShape { result: 0 }))
    );
    let neither = Json::Array(vec![object(vec![])]);
    assert_eq!(
        decode_response(&neither, 1).err(),
        Some(Error::Decode(DecodeError::ResultShape { result: 0 }))
    );
}

#[test]
fn row_maps_names_to_values() {
    let row = Row::new(
        vec!["a".to_string(), "b".to_string()],
        vec![Value::Integer { value: 1 }, Value::Text { value: "x".to_string() }],
    );
    assert_eq!(row.get("a"), Some(&Value::Integer { value: 1 }));
    assert_eq!(row.get("b"), Some(&Value::Text { value: "x".to_string() }));
    assert_eq!(row.get("c"), None);
    assert_eq!(row.values()[0], Value::Integer { value: 1 });
    assert_eq!(row.try_get(1).unwrap(), &Value::Text { value: "x".to_string() });
    assert_eq!(row.try_get(2).err(), Some(Error::Misuse(Misuse::IndexOutOfBounds { index: 2 })));
    assert_eq!(
        row.try_column("c").err(),
        Some(Error::Misuse(Misuse::NoSuchColumn { name: "c".to_string() }))
    );
}

#[test]
fn later_column_of_the_same_name_wins() {
    let row = Row::new(
        vec!["a".to_string(), "a".to_string()],
        vec![Value::Integer { value: 1 }, Value::Integer { value: 2 }],
    );
    assert_eq!(row.try_column("a").unwrap(), &Value::Integer { value: 2 });
}

#[test]
fn booleans_are_zero_and_one() {
    assert_eq!(Value::Integer { value: 1 }.as_bool(), Some(true));
    assert_eq!(Value::Integer { value: 0 }.as_bool(), Some(false));
    assert_eq!(Value::Integer { value: 2 }.as_bool(), None);
    assert_eq!(Value::Text { value: "1".to_string() }.as_bool(), None);
    assert!(Value::Null.is_null());
    assert!(!Value::Integer { value: 0 }.is_null());
}

#[test]
fn schemes_pick_backends() {
    assert_eq!(backend_for_scheme("file"), Ok(Backend::Local));
    assert_eq!(backend_for_scheme("wss"), Ok(Backend::Hrana));
    assert_eq!(backend_for_scheme("ws"), Ok(Backend::Hrana));
    assert_eq!(backend_for_scheme("https"), Ok(Backend::Http));
    assert_eq!(backend_for_scheme("libsql"), Ok(Backend::Http));
    assert_eq!(
        backend_for_scheme("ftp"),
        Err(Error::Misuse(Misuse::UnknownScheme { scheme: "ftp".to_string() }))
    );
    assert_eq!(rewrite_libsql_url("libsql://db.turso.io", "https"), "https://db.turso.io");
    assert_eq!(rewrite_libsql_url("libsql://db.turso.io/?authToken=x", "wss"), "wss://db.turso.io/?authToken=x");
    assert_eq!(rewrite_libsql_url("https://db.turso.io", "wss"), "https://db.turso.io");
    assert_eq!(local_path("file:///tmp/example.db"), Ok("tmp/example.db".to_string()));
    assert!(matches!(local_path("/tmp/example.db"), Err(Error::Misuse(Misuse::BadConfig { .. }))));
}

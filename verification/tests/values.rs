use rusqlite::types::Value as SqlValue;
use rusqlite::types::ValueRef;
use taskdown_bridge::error::BoundaryError;
use taskdown_bridge::mode::{parse_mode, Mode};
use taskdown_bridge::value::{bind, bind_all, cell_value, UntypedValue};

#[test]
fn each_case_binds_as_its_typed_parameter() {
    assert_eq!(bind(&UntypedValue::Null), SqlValue::Null);
    assert_eq!(bind(&UntypedValue::Bool(true)), SqlValue::Integer(1));
    assert_eq!(bind(&UntypedValue::Bool(false)), SqlValue::Integer(0));
    assert_eq!(bind(&UntypedValue::Integer(i64::MIN)), SqlValue::Integer(i64::MIN));
    assert_eq!(bind(&UntypedValue::Integer(i64::MAX)), SqlValue::Integer(i64::MAX));
    assert_eq!(
        bind(&UntypedValue::Real(SqlValue::Real(-1.5e300))),
        SqlValue::Real(-1.5e300)
    );
    assert_eq!(
        bind(&UntypedValue::Text(String::new())),
        SqlValue::Text(String::new())
    );
    assert_eq!(
        bind(&UntypedValue::Text("naïve".to_string())),
        SqlValue::Text("naïve".to_string())
    );
}

#[test]
fn structured_data_binds_as_its_compact_text() {
    let mut object = serde_json::Map::new();
    object.insert("k".to_string(), serde_json::Value::Bool(true));
    object.insert(
        "list".to_string(),
        serde_json::Value::Array(vec![serde_json::Value::from(1), serde_json::Value::from("x")]),
    );
    assert_eq!(
        bind(&UntypedValue::Other(serde_json::Value::Object(object))),
        SqlValue::Text("{\"k\":true,\"list\":[1,\"x\"]}".to_string())
    );
    assert_eq!(
        bind(&UntypedValue::Other(serde_json::Value::Array(vec![]))),
        SqlValue::Text("[]".to_string())
    );
    assert_eq!(
        bind(&UntypedValue::Other(serde_json::Value::String("s".to_string()))),
        SqlValue::Text("\"s\"".to_string())
    );
}

#[test]
fn a_real_that_carries_no_real_number_binds_as_null() {
    assert_eq!(
        bind(&UntypedValue::Real(SqlValue::Text("odd".to_string()))),
        SqlValue::Null
    );
    assert_eq!(bind(&UntypedValue::Real(SqlValue::Blob(vec![1, 2]))), SqlValue::Null);
    assert_eq!(bind(&UntypedValue::Real(SqlValue::Null)), SqlValue::Null);
    assert_eq!(bind(&UntypedValue::Real(SqlValue::Integer(4))), SqlValue::Null);
}

#[test]
fn parameters_are_bound_in_order() {
    assert_eq!(bind_all(&vec![]), Vec::<SqlValue>::new());
    assert_eq!(
        bind_all(&vec![
            UntypedValue::Text("a".to_string()),
            UntypedValue::Bool(true),
            UntypedValue::Null,
            UntypedValue::Integer(3),
        ]),
        vec![
            SqlValue::Text("a".to_string()),
            SqlValue::Integer(1),
            SqlValue::Null,
            SqlValue::Integer(3),
        ]
    );
}

#[test]
fn cells_are_returned_by_storage_class() {
    assert_eq!(cell_value(ValueRef::Null), UntypedValue::Null);
    assert_eq!(cell_value(ValueRef::Integer(-7)), UntypedValue::Integer(-7));
    assert_eq!(
        cell_value(ValueRef::Real(0.5)),
        UntypedValue::Real(SqlValue::Real(0.5))
    );
    assert_eq!(
        cell_value(ValueRef::Text("grüße".as_bytes())),
        UntypedValue::Text("grüße".to_string())
    );
    assert_eq!(cell_value(ValueRef::Text(b"")), UntypedValue::Text(String::new()));
}

#[test]
fn a_blob_is_returned_as_null() {
    assert_eq!(cell_value(ValueRef::Blob(&[1, 2, 3])), UntypedValue::Null);
    assert_eq!(cell_value(ValueRef::Blob(&[])), UntypedValue::Null);
}

#[test]
fn malformed_text_is_replaced_not_refused() {
    assert_eq!(
        cell_value(ValueRef::Text(&[b'o', b'k', 0xff, 0xfe, b'!'])),
        UntypedValue::Text("ok\u{fffd}\u{fffd}!".to_string())
    );
    assert_eq!(
        cell_value(ValueRef::Text(&[0xe2, 0x82])),
        UntypedValue::Text("\u{fffd}".to_string())
    );
}

#[test]
fn a_cell_goes_back_in_as_it_came() {
    let cells = [
        ValueRef::Null,
        ValueRef::Integer(12),
        ValueRef::Real(3.25),
        ValueRef::Text(b"text"),
    ];
    for cell in cells {
        let value = cell_value(cell);
        let bound = bind(&value);
        assert_eq!(cell_value(ValueRef::from(&bound)), value);
    }
}

#[test]
fn only_the_three_mode_names_are_modes() {
    assert_eq!(parse_mode("run"), Some(Mode::Run));
    assert_eq!(parse_mode("get"), Some(Mode::Get));
    assert_eq!(parse_mode("all"), Some(Mode::All));
    for text in ["", "delete", "Run", "RUN", "get ", " all", "runs", "ru", "al\u{4c}"] {
        assert_eq!(parse_mode(text), None, "for {:?}", text);
    }
}

#[test]
fn every_failure_has_its_message() {
    assert_eq!(BoundaryError::NotInitialized.message(), "Database not initialized");
    assert_eq!(
        BoundaryError::ConnectionError("unable to open".to_string()).message(),
        "unable to open"
    );
    assert_eq!(
        BoundaryError::SqlError("near \"x\": syntax error".to_string()).message(),
        "near \"x\": syntax error"
    );
    assert_eq!(BoundaryError::NoRowFound.message(), "Query returned no rows");
    assert_eq!(
        BoundaryError::InvalidMode("delete".to_string()).message(),
        "Unknown method: delete"
    );
    assert_eq!(
        BoundaryError::InvalidFilename.message(),
        "Invalid filename: path traversal detected"
    );
    assert_eq!(BoundaryError::IoError("disk full".to_string()).message(), "disk full");
    assert_eq!(
        BoundaryError::PathTraversalDetected.message(),
        "Path traversal attack detected"
    );
}

#[test]
fn a_number_is_an_integer_before_it_is_a_real() {
    assert_eq!(
        UntypedValue::from_number(Some(3), Some(SqlValue::Real(3.0))),
        UntypedValue::Integer(3)
    );
    assert_eq!(UntypedValue::from_number(Some(-1), None), UntypedValue::Integer(-1));
    assert_eq!(
        UntypedValue::from_number(None, Some(SqlValue::Real(1.8446744073709552e19))),
        UntypedValue::Real(SqlValue::Real(1.8446744073709552e19))
    );
    assert_eq!(UntypedValue::from_number(None, None), UntypedValue::Null);
    assert_eq!(
        bind(&UntypedValue::from_number(None, Some(SqlValue::Real(0.5)))),
        SqlValue::Real(0.5)
    );
    assert_eq!(
        bind(&UntypedValue::from_number(None, Some(SqlValue::Text("x".to_string())))),
        SqlValue::Null
    );
}

#[test]
fn numbers_of_the_wire_are_classified_by_their_readings() {
    let classify = |number: serde_json::Number| {
        UntypedValue::from_number(number.as_i64(), number.as_f64().map(SqlValue::Real))
    };
    assert_eq!(classify(serde_json::Number::from(7)), UntypedValue::Integer(7));
    assert_eq!(classify(serde_json::Number::from(i64::MIN)), UntypedValue::Integer(i64::MIN));
    assert_eq!(
        classify(serde_json::Number::from(u64::MAX)),
        UntypedValue::Real(SqlValue::Real(u64::MAX as f64))
    );
    assert_eq!(
        classify(serde_json::Number::from_f64(2.5).unwrap()),
        UntypedValue::Real(SqlValue::Real(2.5))
    );
}

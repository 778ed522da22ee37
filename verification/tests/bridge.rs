use rusqlite::types::Value as SqlValue;
use taskdown_bridge::bridge::DbState;
use taskdown_bridge::document::ResultDocument;
use taskdown_bridge::error::BoundaryError;
use taskdown_bridge::mode::Mode;
use taskdown_bridge::record::Record;
use taskdown_bridge::value::UntypedValue;

fn memory() -> DbState {
    let mut state = DbState::new();
    assert_eq!(state.initialize(":memory:"), Ok(()));
    state
}

fn run(state: &DbState, sql: &str, params: Vec<UntypedValue>) -> usize {
    match state.execute(sql, &params, "run") {
        Ok(ResultDocument::Changes(count)) => count,
        other => panic!("unexpected outcome: {:?}", other),
    }
}

fn get(state: &DbState, sql: &str, params: Vec<UntypedValue>) -> Record {
    match state.execute(sql, &params, "get") {
        Ok(ResultDocument::Row(record)) => record,
        other => panic!("unexpected outcome: {:?}", other),
    }
}

fn all(state: &DbState, sql: &str, params: Vec<UntypedValue>) -> Vec<Record> {
    match state.execute(sql, &params, "all") {
        Ok(ResultDocument::Rows(records)) => records,
        other => panic!("unexpected outcome: {:?}", other),
    }
}

fn seeded() -> DbState {
    let state = memory();
    run(
        &state,
        "CREATE TABLE t (id INTEGER PRIMARY KEY, name TEXT, score REAL, data BLOB)",
        vec![],
    );
    let inserted = run(
        &state,
        "INSERT INTO t (id, name, score, data) VALUES (?, ?, ?, x'00ff')",
        vec![
            UntypedValue::Integer(1),
            UntypedValue::Text("ada".to_string()),
            UntypedValue::Real(SqlValue::Real(2.5)),
        ],
    );
    assert_eq!(inserted, 1);
    state
}

#[test]
fn execute_before_initialize_fails_for_every_mode() {
    let state = DbState::new();
    assert!(!state.initialized());
    for mode in ["run", "get", "all", "delete", ""] {
        assert_eq!(
            state.execute("SELECT 1", &vec![], mode),
            Err(BoundaryError::NotInitialized)
        );
    }
}

#[test]
fn unknown_mode_is_refused_and_nothing_runs() {
    let state = seeded();
    assert_eq!(
        state.execute("DELETE FROM t", &vec![], "delete"),
        Err(BoundaryError::InvalidMode("delete".to_string()))
    );
    assert_eq!(
        state.execute("DELETE FROM t", &vec![], "RUN"),
        Err(BoundaryError::InvalidMode("RUN".to_string()))
    );
    assert_eq!(
        state.execute("DELETE FROM t", &vec![], ""),
        Err(BoundaryError::InvalidMode(String::new()))
    );
    assert_eq!(all(&state, "SELECT id FROM t", vec![]).len(), 1);
}

#[test]
fn get_returns_the_row_by_storage_class() {
    let state = seeded();
    let record = get(
        &state,
        "SELECT id, name, score, data, NULL AS empty FROM t WHERE id = ?",
        vec![UntypedValue::Integer(1)],
    );
    assert_eq!(record.len(), 5);
    assert_eq!(record.get("id"), Some(&UntypedValue::Integer(1)));
    assert_eq!(record.get("name"), Some(&UntypedValue::Text("ada".to_string())));
    assert_eq!(record.get("score"), Some(&UntypedValue::Real(SqlValue::Real(2.5))));
    assert_eq!(record.get("data"), Some(&UntypedValue::Null));
    assert_eq!(record.get("empty"), Some(&UntypedValue::Null));
    assert_eq!(record.get("absent"), None);
    let names: Vec<&str> = (0..record.len())
        .map(|i| record.entry(i).unwrap().key.as_str())
        .collect();
    assert_eq!(names, vec!["id", "name", "score", "data", "empty"]);
    assert!(record.entry(5).is_none());
}

#[test]
fn get_without_a_row_is_no_row_found() {
    let state = seeded();
    assert_eq!(
        state.execute("SELECT * FROM t WHERE id = ?", &vec![UntypedValue::Integer(7)], "get"),
        Err(BoundaryError::NoRowFound)
    );
}

#[test]
fn all_without_rows_is_an_empty_sequence() {
    let state = seeded();
    assert_eq!(
        state.execute("SELECT * FROM t WHERE id = ?", &vec![UntypedValue::Integer(7)], "all"),
        Ok(ResultDocument::Rows(vec![]))
    );
}

#[test]
fn all_returns_every_row_in_order() {
    let state = seeded();
    run(&state, "INSERT INTO t (id, name) VALUES (2, 'bob')", vec![]);
    run(&state, "INSERT INTO t (id, name) VALUES (3, 'cy')", vec![]);
    let rows = all(&state, "SELECT id, name FROM t ORDER BY id DESC", vec![]);
    assert_eq!(rows.len(), 3);
    assert_eq!(rows[0].get("id"), Some(&UntypedValue::Integer(3)));
    assert_eq!(rows[1].get("name"), Some(&UntypedValue::Text("bob".to_string())));
    assert_eq!(rows[2].get("id"), Some(&UntypedValue::Integer(1)));
}

#[test]
fn run_delete_reports_the_affected_rows() {
    let state = seeded();
    let sql = "DELETE FROM t WHERE id = ?";
    assert_eq!(
        state.execute(sql, &vec![UntypedValue::Integer(1)], "run"),
        Ok(ResultDocument::Changes(1))
    );
    assert_eq!(
        state.execute(sql, &vec![UntypedValue::Integer(1)], "run"),
        Ok(ResultDocument::Changes(0))
    );
}

#[test]
fn engine_failures_come_back_as_sql_errors() {
    let state = seeded();
    for mode in ["run", "get", "all"] {
        match state.execute("SELEKT 1", &vec![], mode) {
            Err(BoundaryError::SqlError(text)) => assert!(text.contains("syntax error")),
            other => panic!("unexpected outcome: {:?}", other),
        }
    }
    match state.execute("INSERT INTO t (id) VALUES (1)", &vec![], "run") {
        Err(BoundaryError::SqlError(text)) => assert!(text.contains("UNIQUE")),
        other => panic!("unexpected outcome: {:?}", other),
    }
    match state.execute("SELECT ?", &vec![], "get") {
        Err(BoundaryError::SqlError(text)) => assert!(text.contains("Wrong number of parameters")),
        other => panic!("unexpected outcome: {:?}", other),
    }
    match state.execute("SELECT 1", &vec![UntypedValue::Null], "all") {
        Err(BoundaryError::SqlError(_)) => {}
        other => panic!("unexpected outcome: {:?}", other),
    }
}

#[test]
fn parameters_are_bound_by_their_case() {
    let state = memory();
    let structured = serde_json::Value::Array(vec![
        serde_json::Value::from(1),
        serde_json::Value::String("two".to_string()),
        serde_json::Value::Null,
    ]);
    let record = get(
        &state,
        "SELECT ? AS a, ? AS b, ? AS c, ? AS d, ? AS e, ? AS f, ? AS g, typeof(?2) AS kind",
        vec![
            UntypedValue::Null,
            UntypedValue::Bool(true),
            UntypedValue::Bool(false),
            UntypedValue::Integer(-9),
            UntypedValue::Real(SqlValue::Real(0.25)),
            UntypedValue::Text("héllo".to_string()),
            UntypedValue::Other(structured),
        ],
    );
    assert_eq!(record.get("a"), Some(&UntypedValue::Null));
    assert_eq!(record.get("b"), Some(&UntypedValue::Integer(1)));
    assert_eq!(record.get("c"), Some(&UntypedValue::Integer(0)));
    assert_eq!(record.get("d"), Some(&UntypedValue::Integer(-9)));
    assert_eq!(record.get("e"), Some(&UntypedValue::Real(SqlValue::Real(0.25))));
    assert_eq!(record.get("f"), Some(&UntypedValue::Text("héllo".to_string())));
    assert_eq!(
        record.get("g"),
        Some(&UntypedValue::Text("[1,\"two\",null]".to_string()))
    );
    assert_eq!(record.get("kind"), Some(&UntypedValue::Text("integer".to_string())));
}

#[test]
fn malformed_text_is_read_with_replacement() {
    let state = memory();
    let record = get(&state, "SELECT CAST(x'61ff62' AS TEXT) AS broken", vec![]);
    assert_eq!(
        record.get("broken"),
        Some(&UntypedValue::Text("a\u{fffd}b".to_string()))
    );
}

#[test]
fn a_repeated_column_name_keeps_the_last_value() {
    let state = memory();
    let record = get(&state, "SELECT 1 AS a, 2 AS b, 3 AS a", vec![]);
    assert_eq!(record.len(), 2);
    assert_eq!(record.get("a"), Some(&UntypedValue::Integer(3)));
    assert_eq!(record.get("b"), Some(&UntypedValue::Integer(2)));
    assert_eq!(record.entry(0).unwrap().key, "a");
    assert_eq!(record.entry(1).unwrap().key, "b");
}

#[test]
fn initialize_replaces_the_connection() {
    let mut state = memory();
    run(&state, "CREATE TABLE only_here (x)", vec![]);
    assert_eq!(state.initialize(":memory:"), Ok(()));
    assert!(state.initialized());
    match state.execute("SELECT * FROM only_here", &vec![], "all") {
        Err(BoundaryError::SqlError(text)) => assert!(text.contains("no such table")),
        other => panic!("unexpected outcome: {:?}", other),
    }
}

#[test]
fn a_failed_open_keeps_the_connection() {
    let mut state = memory();
    run(&state, "CREATE TABLE kept (x)", vec![]);
    match state.initialize("/nonexistent-directory/for/sure/db.sqlite") {
        Err(BoundaryError::ConnectionError(text)) => assert!(!text.is_empty()),
        other => panic!("unexpected outcome: {:?}", other),
    }
    assert!(state.initialized());
    assert_eq!(all(&state, "SELECT * FROM kept", vec![]).len(), 0);
    let mut fresh = DbState::new();
    assert!(fresh.initialize("/nonexistent-directory/for/sure/db.sqlite").is_err());
    assert!(!fresh.initialized());
}

#[test]
fn install_takes_what_the_open_gave() {
    let mut state = DbState::new();
    assert_eq!(state.install(rusqlite::Connection::open_in_memory()), Ok(()));
    assert!(state.initialized());
    assert!(state.connection().is_ok());
    run(&state, "CREATE TABLE here (x)", vec![]);
    let failure = rusqlite::Error::InvalidPath("nowhere".into());
    let text = failure.to_string();
    assert_eq!(state.install(Err(failure)), Err(BoundaryError::ConnectionError(text)));
    assert_eq!(all(&state, "SELECT * FROM here", vec![]).len(), 0);
}

#[test]
fn the_registry_lends_its_connection() {
    let state = DbState::new();
    assert_eq!(state.connection().err(), Some(BoundaryError::NotInitialized));
    let state = memory();
    let connection = state.connection().unwrap();
    assert!(connection.is_autocommit());
}

#[test]
fn routing_decides_before_the_engine_is_asked() {
    let absent = DbState::new();
    for mode in ["run", "get", "all", "drop"] {
        assert_eq!(absent.route(mode), Err(BoundaryError::NotInitialized));
    }
    let present = memory();
    assert_eq!(present.route("run"), Ok(Mode::Run));
    assert_eq!(present.route("get"), Ok(Mode::Get));
    assert_eq!(present.route("all"), Ok(Mode::All));
    assert_eq!(
        present.route("drop"),
        Err(BoundaryError::InvalidMode("drop".to_string()))
    );
}

#[test]
fn a_statement_that_gives_no_rows_fetches_none() {
    let state = seeded();
    assert_eq!(
        state.execute("INSERT INTO t (id, name) VALUES (9, 'ida')", &vec![], "get"),
        Err(BoundaryError::NoRowFound)
    );
    assert_eq!(
        state.execute("INSERT INTO t (id, name) VALUES (10, 'jo')", &vec![], "all"),
        Ok(ResultDocument::Rows(vec![]))
    );
    assert_eq!(all(&state, "SELECT id FROM t", vec![]).len(), 3);
    match state.execute("SELECT id FROM t", &vec![], "run") {
        Err(BoundaryError::SqlError(text)) => assert!(!text.is_empty()),
        other => panic!("unexpected outcome: {:?}", other),
    }
}

#[test]
fn real_numbers_keep_their_value() {
    let state = memory();
    for x in [0.0, -0.0, 1.5, -2.25e-300, 1.0e308, f64::MIN_POSITIVE, f64::INFINITY] {
        let record = get(
            &state,
            "SELECT ? AS x",
            vec![UntypedValue::Real(SqlValue::Real(x))],
        );
        match record.get("x") {
            Some(UntypedValue::Real(SqlValue::Real(y))) => {
                assert_eq!(x.to_bits(), y.to_bits())
            }
            other => panic!("unexpected cell: {:?}", other),
        }
    }
}

#[test]
fn column_names_are_read_as_text() {
    let state = memory();
    let record = get(
        &state,
        "SELECT 1 AS \"größe\", 2 AS \"名前\", 3 AS \"\", 4, 'x' || 'y'",
        vec![],
    );
    let names: Vec<&str> = (0..record.len())
        .map(|i| record.entry(i).unwrap().key.as_str())
        .collect();
    assert_eq!(names, vec!["größe", "名前", "", "4", "'x' || 'y'"]);
    assert_eq!(record.get("名前"), Some(&UntypedValue::Integer(2)));
}

#[test]
fn a_failure_while_rows_are_fetched_is_a_sql_error() {
    let state = memory();
    run(&state, "CREATE TABLE n (x)", vec![]);
    run(&state, "INSERT INTO n VALUES (1), (2), ('three'), (4)", vec![]);
    assert_eq!(all(&state, "SELECT x FROM n ORDER BY rowid", vec![]).len(), 4);
    let failing_at_the_third_row =
        "SELECT json_extract(CASE WHEN x = 'three' THEN '{' ELSE '{}' END, '$') FROM n \
         ORDER BY rowid";
    match state.execute(failing_at_the_third_row, &vec![], "all") {
        Err(BoundaryError::SqlError(text)) => assert!(text.contains("JSON")),
        other => panic!("unexpected outcome: {:?}", other),
    }
    match state.execute(
        "SELECT json_extract('{', '$') FROM n WHERE x = 'three'",
        &vec![],
        "get",
    ) {
        Err(BoundaryError::SqlError(text)) => assert!(text.contains("JSON")),
        other => panic!("unexpected outcome: {:?}", other),
    }
}

use rusqlite::types::Value as SqlValue;
use taskdown_bridge::bridge::{
    all_outcome, first_step_outcome, get_outcome, rows_outcome, run_outcome,
};
use taskdown_bridge::document::ResultDocument;
use taskdown_bridge::error::BoundaryError;
use taskdown_bridge::record::{Entry, Record};
use taskdown_bridge::value::UntypedValue;

fn text(value: &str) -> UntypedValue {
    UntypedValue::Text(value.to_string())
}

fn names(list: &[&str]) -> Vec<String> {
    list.iter().map(|name| name.to_string()).collect()
}

fn keys(record: &Record) -> Vec<String> {
    (0..record.len())
        .map(|i| record.entry(i).unwrap().key.clone())
        .collect()
}

#[test]
fn a_new_record_is_empty() {
    let record = Record::new();
    assert_eq!(record.len(), 0);
    assert_eq!(record.get("a"), None);
    assert!(record.entry(0).is_none());
    assert_eq!(record.into_entries(), vec![]);
}

#[test]
fn insert_adds_new_keys_at_the_end() {
    let mut record = Record::new();
    record.insert("b".to_string(), UntypedValue::Integer(1));
    record.insert("a".to_string(), text("x"));
    record.insert("".to_string(), UntypedValue::Null);
    assert_eq!(record.len(), 3);
    assert_eq!(keys(&record), names(&["b", "a", ""]));
    assert_eq!(record.get("b"), Some(&UntypedValue::Integer(1)));
    assert_eq!(record.get("a"), Some(&text("x")));
    assert_eq!(record.get(""), Some(&UntypedValue::Null));
    assert_eq!(record.get("B"), None);
}

#[test]
fn insert_replaces_the_value_of_a_key_in_place() {
    let mut record = Record::new();
    record.insert("a".to_string(), UntypedValue::Integer(1));
    record.insert("b".to_string(), UntypedValue::Integer(2));
    record.insert("a".to_string(), UntypedValue::Integer(3));
    assert_eq!(record.len(), 2);
    assert_eq!(keys(&record), names(&["a", "b"]));
    assert_eq!(
        record.into_entries(),
        vec![
            Entry { key: "a".to_string(), value: UntypedValue::Integer(3) },
            Entry { key: "b".to_string(), value: UntypedValue::Integer(2) },
        ]
    );
}

#[test]
fn a_row_is_zipped_from_names_and_cells() {
    let record = Record::from_row(
        &names(&["id", "name", "score"]),
        vec![
            UntypedValue::Integer(5),
            text("eve"),
            UntypedValue::Real(SqlValue::Real(9.5)),
        ],
    );
    assert_eq!(keys(&record), names(&["id", "name", "score"]));
    assert_eq!(record.get("id"), Some(&UntypedValue::Integer(5)));
    assert_eq!(record.get("name"), Some(&text("eve")));
    assert_eq!(record.get("score"), Some(&UntypedValue::Real(SqlValue::Real(9.5))));
}

#[test]
fn a_repeated_name_holds_the_last_cell_at_the_first_place() {
    let record = Record::from_row(
        &names(&["a", "b", "a", "c", "b", "a"]),
        vec![
            UntypedValue::Integer(1),
            UntypedValue::Integer(2),
            UntypedValue::Integer(3),
            UntypedValue::Integer(4),
            UntypedValue::Integer(5),
            UntypedValue::Integer(6),
        ],
    );
    assert_eq!(keys(&record), names(&["a", "b", "c"]));
    assert_eq!(record.get("a"), Some(&UntypedValue::Integer(6)));
    assert_eq!(record.get("b"), Some(&UntypedValue::Integer(5)));
    assert_eq!(record.get("c"), Some(&UntypedValue::Integer(4)));
}

#[test]
fn a_row_reaches_as_far_as_names_and_cells_both_do() {
    let short = Record::from_row(&names(&["a", "b", "c"]), vec![UntypedValue::Integer(1)]);
    assert_eq!(keys(&short), names(&["a"]));
    let long = Record::from_row(
        &names(&["a"]),
        vec![UntypedValue::Integer(1), UntypedValue::Integer(2)],
    );
    assert_eq!(keys(&long), names(&["a"]));
    assert_eq!(long.get("a"), Some(&UntypedValue::Integer(1)));
    assert_eq!(Record::from_row(&vec![], vec![]).len(), 0);
}

#[test]
fn run_gives_the_count_or_the_failure_of_the_engine() {
    assert_eq!(run_outcome(Ok(0)), Ok(ResultDocument::Changes(0)));
    assert_eq!(run_outcome(Ok(42)), Ok(ResultDocument::Changes(42)));
    assert_eq!(
        run_outcome(Err(rusqlite::Error::ExecuteReturnedResults)),
        Err(BoundaryError::SqlError(
            rusqlite::Error::ExecuteReturnedResults.to_string()
        ))
    );
    assert_eq!(
        run_outcome(Err(rusqlite::Error::InvalidParameterCount(1, 2))),
        Err(BoundaryError::SqlError(
            "Wrong number of parameters passed to query. Got 1, needed 2".to_string()
        ))
    );
}

#[test]
fn get_gives_the_first_row_or_no_row_found() {
    let columns = names(&["x", "y"]);
    assert_eq!(get_outcome(&columns, None), Err(BoundaryError::NoRowFound));
    let mut expected = Record::new();
    expected.insert("x".to_string(), UntypedValue::Null);
    expected.insert("y".to_string(), text("z"));
    assert_eq!(
        get_outcome(&columns, Some(vec![UntypedValue::Null, text("z")])),
        Ok(ResultDocument::Row(expected))
    );
}

#[test]
fn all_gives_every_row_and_none_is_no_failure() {
    let columns = names(&["x"]);
    assert_eq!(all_outcome(&columns, vec![]), ResultDocument::Rows(vec![]));
    let document = all_outcome(
        &columns,
        vec![vec![UntypedValue::Integer(1)], vec![UntypedValue::Integer(2)]],
    );
    match document {
        ResultDocument::Rows(rows) => {
            assert_eq!(rows.len(), 2);
            assert_eq!(rows[0].get("x"), Some(&UntypedValue::Integer(1)));
            assert_eq!(rows[1].get("x"), Some(&UntypedValue::Integer(2)));
        }
        other => panic!("unexpected document: {:?}", other),
    }
}

#[test]
fn a_first_step_gives_its_row_or_says_why_not() {
    let columns = names(&["x", "y"]);
    assert_eq!(
        first_step_outcome(&columns, Ok(None)),
        Err(BoundaryError::NoRowFound)
    );
    let mut expected = Record::new();
    expected.insert("x".to_string(), UntypedValue::Integer(1));
    expected.insert("y".to_string(), text("z"));
    assert_eq!(
        first_step_outcome(&columns, Ok(Some(vec![UntypedValue::Integer(1), text("z")]))),
        Ok(ResultDocument::Row(expected))
    );
    let failure = rusqlite::Error::InvalidColumnIndex(3);
    let message = failure.to_string();
    assert_eq!(
        first_step_outcome(&columns, Err(failure)),
        Err(BoundaryError::SqlError(message))
    );
}

#[test]
fn a_failure_while_fetching_gives_no_rows_at_all() {
    let columns = names(&["x"]);
    let fetched = || vec![vec![UntypedValue::Integer(1)], vec![UntypedValue::Integer(2)]];
    match rows_outcome(&columns, fetched(), Ok(())) {
        Ok(ResultDocument::Rows(rows)) => {
            assert_eq!(rows.len(), 2);
            assert_eq!(rows[0].get("x"), Some(&UntypedValue::Integer(1)));
            assert_eq!(rows[1].get("x"), Some(&UntypedValue::Integer(2)));
        }
        other => panic!("unexpected outcome: {:?}", other),
    }
    assert_eq!(
        rows_outcome(&columns, vec![], Ok(())),
        Ok(ResultDocument::Rows(vec![]))
    );
    let failure = rusqlite::Error::InvalidQuery;
    let message = failure.to_string();
    assert_eq!(
        rows_outcome(&columns, fetched(), Err(failure)),
        Err(BoundaryError::SqlError(message))
    );
}

//! The database engine, as far as the bridge calls it. What these calls
//! give depends on the database, so nothing is claimed of them here but
//! the text of a failure, the column names that a prepared statement holds
//! and the cells that a fetched row holds.

use crate::value::{cell_model, SqlModel};
use rusqlite::types::Value as SqlValue;
use rusqlite::types::ValueRef;
use vstd::prelude::*;
use vstd::utf8::{decode_utf8, valid_utf8};

verus! {

/// An open database. Nothing inside it is read here.
#[verifier::external_type_specification]
#[verifier::external_body]
pub struct ExConnection(rusqlite::Connection);

/// A prepared statement of an open database.
#[verifier::external_type_specification]
#[verifier::external_body]
pub struct ExStatement<'conn>(rusqlite::Statement<'conn>);

/// The rows that a running query still has to give.
#[verifier::external_type_specification]
#[verifier::external_body]
pub struct ExRows<'stmt>(rusqlite::Rows<'stmt>);

/// The row that a query stands on.
#[verifier::external_type_specification]
#[verifier::external_body]
pub struct ExRow<'stmt>(rusqlite::Row<'stmt>);

/// A failure that the engine reports.
#[verifier::external_type_specification]
#[verifier::external_body]
pub struct ExEngineError(rusqlite::Error);

/// The column names that a prepared statement holds, in the order of its
/// columns, as the bytes in which the engine keeps them. The engine does
/// not check that they are text.
pub uninterp spec fn column_name_bytes(statement: rusqlite::Statement<'_>) -> Seq<Seq<u8>>;

/// Whether every statement that is prepared on this connection holds only
/// column names that are valid UTF-8. It is so unless the schema of a
/// database was written with malformed text.
pub uninterp spec fn names_in_text(connection: rusqlite::Connection) -> bool;

/// Whether every one of `names` is valid UTF-8.
pub open spec fn are_texts(names: Seq<Seq<u8>>) -> bool {
    forall|i: int| 0 <= i < names.len() ==> valid_utf8(#[trigger] names[i])
}

/// The cells that a fetched row holds, in the order of its columns: what
/// `rusqlite::Row::get_ref` gives for each place, as the value it stands
/// for.
pub uninterp spec fn row_cells(row: rusqlite::Row<'_>) -> Seq<SqlModel>;

/// The text that the engine gives for `error`.
pub uninterp spec fn error_message(error: rusqlite::Error) -> Seq<char>;

/// Calls `to_string` on a `rusqlite::Error`, that is its `Display`. The text
/// depends on the error alone.
#[verifier::external_body]
pub(crate) fn error_text(error: &rusqlite::Error) -> (text: String)
    ensures
        text@ == error_message(*error),
{
    error.to_string()
}

/// Calls `rusqlite::Connection::open`, which opens the database at `path`
/// for reading and writing and creates the file if there is none. Whether it
/// succeeds depends on the file system.
#[verifier::external_body]
pub(crate) fn open_database(path: &str) -> (opened: Result<rusqlite::Connection, rusqlite::Error>) {
    rusqlite::Connection::open(path)
}

/// Calls `rusqlite::Connection::execute` with the parameters in order: the
/// statement is prepared, bound and run once, and the number of rows that
/// the engine counts as changed comes back. What comes back depends on the
/// database.
#[verifier::external_body]
pub(crate) fn execute_once(
    connection: &rusqlite::Connection,
    sql: &str,
    params: &Vec<SqlValue>,
) -> (executed: Result<usize, rusqlite::Error>) {
    connection.execute(sql, rusqlite::params_from_iter(params.iter()))
}

/// Calls `rusqlite::Connection::prepare`. Whether it succeeds depends on
/// the database. Of the statement it says only what `names_in_text` means:
/// on a connection of which that holds, the statement holds no column name
/// that is not valid UTF-8.
#[verifier::external_body]
pub(crate) fn prepare<'conn>(connection: &'conn rusqlite::Connection, sql: &str) -> (prepared:
    Result<rusqlite::Statement<'conn>, rusqlite::Error>)
    ensures
        prepared matches Ok(statement) ==> (names_in_text(*connection) ==> are_texts(
            column_name_bytes(statement),
        )),
{
    connection.prepare(sql)
}

/// Calls `rusqlite::Statement::column_names` and copies each name: the
/// names that the statement holds, in order, each read as UTF-8. The engine
/// panics on a name that is not valid UTF-8, so such a statement is left
/// out.
#[verifier::external_body]
pub(crate) fn column_names(statement: &rusqlite::Statement<'_>) -> (names: Vec<String>)
    requires
        are_texts(column_name_bytes(*statement)),
    ensures
        names@.len() == column_name_bytes(*statement).len(),
        forall|i: int|
            0 <= i < names@.len() ==> (#[trigger] names@[i])@ == decode_utf8(
                column_name_bytes(*statement)[i],
            ),
{
    statement.column_names().map(String::from).collect()
}

/// Calls `rusqlite::Statement::query` with the parameters in order, which
/// binds them and hands out the rows, none of them fetched yet.
#[verifier::external_body]
pub(crate) fn query<'stmt>(
    statement: &'stmt mut rusqlite::Statement<'_>,
    params: &Vec<SqlValue>,
) -> (rows: Result<rusqlite::Rows<'stmt>, rusqlite::Error>) {
    statement.query(rusqlite::params_from_iter(params.iter()))
}

/// Calls `rusqlite::Rows::next`, which steps the query: the next row, or
/// `None` once every row was given.
#[verifier::external_body]
pub(crate) fn next_row<'rows, 'stmt>(rows: &'rows mut rusqlite::Rows<'stmt>) -> (row: Result<
    Option<&'rows rusqlite::Row<'stmt>>,
    rusqlite::Error,
>) {
    rows.next()
}

/// Calls `rusqlite::Row::get_ref` with a column's place, counted from 0. It
/// fails exactly where the row has no column at that place, and else gives
/// the cell that the row holds there, by the storage class that the engine
/// reports. A row holds the same cells for as long as it is borrowed.
#[verifier::external_body]
pub(crate) fn cell_ref<'row>(row: &'row rusqlite::Row<'_>, index: usize) -> (cell: Result<
    ValueRef<'row>,
    rusqlite::Error,
>)
    ensures
        match cell {
            Ok(found) => index < row_cells(*row).len() && cell_model(found) == row_cells(
                *row,
            )[index as int],
            Err(_) => index >= row_cells(*row).len(),
        },
{
    row.get_ref(index)
}

} // verus!

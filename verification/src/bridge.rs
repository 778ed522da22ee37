//! The SQL bridge: the connection registry, and the execution of a
//! statement in one of the three modes.

use crate::document::{
    are_cells, is_row, lemma_row_of_cells, DocumentModel, ResultDocument,
};
use crate::engine::{
    cell_ref, column_names, error_message, error_text, execute_once, names_in_text, next_row,
    open_database, prepare, query, row_cells,
};
use crate::error::{BoundaryError, ErrorModel};
use crate::mode::{mode_of, parse_mode, Mode};
use crate::record::{models, zipped, Record};
use crate::text::texts;
use crate::value::{bind_all, cell_value, returned_cells, UntypedValue};
use rusqlite::types::Value as SqlValue;
use vstd::prelude::*;

verus! {

/// The connection registry: it owns the one live connection, or none.
///
/// Whoever holds the registry exclusively holds the connection exclusively.
pub struct DbState {
    connection: Option<rusqlite::Connection>,
}

/// The failure that a statement's failure in the engine is reported as: it
/// carries the engine's message as it stands.
pub fn sql_failure(error: &rusqlite::Error) -> (failure: BoundaryError)
    ensures
        failure@ == ErrorModel::SqlError(error_message(*error)),
{
    BoundaryError::SqlError(error_text(error))
}

/// What mode `run` returns for what the engine gave: the count of changed
/// rows, or the engine's failure.
pub fn run_outcome(executed: Result<usize, rusqlite::Error>) -> (outcome: Result<
    ResultDocument,
    BoundaryError,
>)
    ensures
        match executed {
            Ok(count) => outcome matches Ok(document) && document@ == DocumentModel::Changes(
                count as nat,
            ),
            Err(error) => outcome matches Err(failure) && failure@ == ErrorModel::SqlError(
                error_message(error),
            ),
        },
{
    match executed {
        Ok(count) => Ok(ResultDocument::Changes(count)),
        Err(error) => Err(sql_failure(&error)),
    }
}

/// What mode `get` returns for the first row of a query: its record, or
/// `NoRowFound` where the query gave no row.
pub fn get_outcome(columns: &Vec<String>, first: Option<Vec<UntypedValue>>) -> (outcome: Result<
    ResultDocument,
    BoundaryError,
>)
    ensures
        match first {
            Some(cells) => outcome matches Ok(document) && document@ == DocumentModel::Row(
                zipped(texts(columns@), models(cells@)),
            ),
            None => outcome matches Err(failure) && failure@ == ErrorModel::NoRowFound,
        },
{
    match first {
        Some(cells) => Ok(ResultDocument::Row(Record::from_row(columns, cells))),
        None => Err(BoundaryError::NoRowFound),
    }
}

/// What mode `get` returns for the first step of a query: the record of
/// the row that it gave, `NoRowFound` where it gave none, and the engine's
/// failure where the step failed.
pub fn first_step_outcome(
    columns: &Vec<String>,
    stepped: Result<Option<Vec<UntypedValue>>, rusqlite::Error>,
) -> (outcome: Result<ResultDocument, BoundaryError>)
    ensures
        match stepped {
            Ok(Some(cells)) => outcome matches Ok(document) && document@ == DocumentModel::Row(
                zipped(texts(columns@), models(cells@)),
            ),
            Ok(None) => outcome matches Err(failure) && failure@ == ErrorModel::NoRowFound,
            Err(error) => outcome matches Err(failure) && failure@ == ErrorModel::SqlError(
                error_message(error),
            ),
        },
{
    match stepped {
        Ok(first) => get_outcome(columns, first),
        Err(error) => Err(sql_failure(&error)),
    }
}

/// What mode `all` returns once the fetching of rows has ended: the
/// records of all the rows where it ended because the engine had no more,
/// and the engine's failure where it ended on one. The rows that were
/// fetched before a failure are not returned.
pub fn rows_outcome(
    columns: &Vec<String>,
    rows: Vec<Vec<UntypedValue>>,
    ended: Result<(), rusqlite::Error>,
) -> (outcome: Result<ResultDocument, BoundaryError>)
    ensures
        match ended {
            Ok(_) => outcome matches Ok(document) && document@ == DocumentModel::Rows(
                Seq::new(rows@.len(), |i: int| zipped(texts(columns@), models(rows@[i]@))),
            ),
            Err(error) => outcome matches Err(failure) && failure@ == ErrorModel::SqlError(
                error_message(error),
            ),
        },
{
    match ended {
        Ok(_) => Ok(all_outcome(columns, rows)),
        Err(error) => Err(sql_failure(&error)),
    }
}

/// What mode `all` returns for the rows of a query: their records, in
/// order. No rows give an empty sequence, which is no failure.
pub fn all_outcome(columns: &Vec<String>, rows: Vec<Vec<UntypedValue>>) -> (document:
    ResultDocument)
    ensures
        document@ == DocumentModel::Rows(
            Seq::new(rows@.len(), |i: int| zipped(texts(columns@), models(rows@[i]@))),
        ),
{
    let mut records: Vec<Record> = Vec::new();
    let ghost names = texts(columns@);
    let ghost given = rows@;
    for cells in it: rows.into_iter()
        invariant
            names == texts(columns@),
            it.seq() == given,
            records@.len() == it.index(),
            forall|i: int|
                0 <= i < records@.len() ==> (#[trigger] records@[i])@ == zipped(
                    names,
                    models(given[i]@),
                ),
    {
        records.push(Record::from_row(columns, cells));
    }
    let document = ResultDocument::Rows(records);
    assert(document@->Rows_0 =~= Seq::new(
        given.len(),
        |i: int| zipped(texts(columns@), models(given[i]@)),
    ));
    document
}

/// Reads the first `width` cells of a row, each by its storage class, and
/// fails exactly where the row has fewer.
fn read_cells(row: &rusqlite::Row<'_>, width: usize) -> (read: Result<
    Vec<UntypedValue>,
    rusqlite::Error,
>)
    ensures
        match read {
            Ok(cells) => width <= row_cells(*row).len() && models(cells@) == returned_cells(
                row_cells(*row).take(width as int),
            ),
            Err(_) => width > row_cells(*row).len(),
        },
{
    let mut cells: Vec<UntypedValue> = Vec::new();
    let mut i: usize = 0;
    assert(models(cells@) =~= returned_cells(row_cells(*row).take(0)));
    while i < width
        invariant
            i <= width,
            i <= row_cells(*row).len(),
            models(cells@) == returned_cells(row_cells(*row).take(i as int)),
        decreases width - i,
    {
        match cell_ref(row, i) {
            Ok(cell) => {
                let value = cell_value(cell);
                proof {
                    let stored = row_cells(*row);
                    assert(stored.take(i + 1) =~= stored.take(i as int).push(stored[i as int]));
                    assert(models(cells@.push(value)) =~= models(cells@).push(value@));
                    assert(returned_cells(stored.take(i + 1)) =~= returned_cells(
                        stored.take(i as int),
                    ).push(stored[i as int].returned()));
                }
                cells.push(value);
            },
            Err(error) => {
                return Err(error);
            },
        }
        i = i + 1;
    }
    Ok(cells)
}

/// Reads what a step of a query gave: the first `width` cells of the row
/// where it gave one, nothing where it gave none, and the failure where the
/// step failed or the row has fewer cells.
fn read_step(stepped: Result<Option<&rusqlite::Row<'_>>, rusqlite::Error>, width: usize) -> (read:
    Result<Option<Vec<UntypedValue>>, rusqlite::Error>)
    ensures
        match stepped {
            Ok(Some(row)) => match read {
                Ok(Some(cells)) => width <= row_cells(*row).len() && models(cells@)
                    == returned_cells(row_cells(*row).take(width as int)),
                Ok(None) => false,
                Err(_) => width > row_cells(*row).len(),
            },
            Ok(None) => read matches Ok(None),
            Err(error) => read matches Err(failure) && failure == error,
        },
{
    match stepped {
        Ok(Some(row)) => match read_cells(row, width) {
            Ok(cells) => Ok(Some(cells)),
            Err(error) => Err(error),
        },
        Ok(None) => Ok(None),
        Err(error) => Err(error),
    }
}

impl DbState {
    /// The connection that the registry holds, if any.
    pub closed spec fn handle(&self) -> Option<rusqlite::Connection> {
        self.connection
    }

    /// Whether a connection is installed.
    pub open spec fn is_initialized(&self) -> bool {
        self.handle() is Some
    }

    /// Whether every statement that is prepared on the connection, if there
    /// is one, names its columns in valid UTF-8.
    pub open spec fn names_columns_in_text(&self) -> bool {
        self.handle() matches Some(connection) ==> names_in_text(connection)
    }

    /// A registry without a connection.
    pub fn new() -> (state: DbState)
        ensures
            !state.is_initialized(),
    {
        DbState { connection: None }
    }

    /// Whether a connection is installed.
    pub fn initialized(&self) -> (yes: bool)
        ensures
            yes == self.is_initialized(),
    {
        self.connection.is_some()
    }

    /// The connection, for as long as the registry is borrowed; without one
    /// the failure is `NotInitialized`.
    pub fn connection(&self) -> (held: Result<&rusqlite::Connection, BoundaryError>)
        ensures
            match held {
                Ok(connection) => self.handle() == Some(*connection),
                Err(failure) => !self.is_initialized() && failure@ == ErrorModel::NotInitialized,
            },
    {
        match &self.connection {
            Some(connection) => Ok(connection),
            None => Err(BoundaryError::NotInitialized),
        }
    }

    /// Decides, before anything is asked of the engine, whether a statement
    /// is executed at all, and in which mode: without a connection the
    /// failure is `NotInitialized`, whatever the mode; with one, a text that
    /// names no mode fails with `InvalidMode`.
    pub fn route(&self, mode: &str) -> (routed: Result<Mode, BoundaryError>)
        ensures
            match routed {
                Ok(known) => self.is_initialized() && mode_of(mode@) == Some(known),
                Err(failure) => failure@ == if !self.is_initialized() {
                    ErrorModel::NotInitialized
                } else {
                    ErrorModel::InvalidMode(mode@)
                } && (self.is_initialized() ==> mode_of(mode@) is None),
            },
    {
        if !self.initialized() {
            return Err(BoundaryError::NotInitialized);
        }
        match parse_mode(mode) {
            Some(known) => Ok(known),
            None => Err(BoundaryError::InvalidMode(String::from_str(mode))),
        }
    }

    /// Installs what an attempt to open a database gave. A connection takes
    /// the place of the one before, which is released; a failure leaves the
    /// registry as it was.
    pub fn install(&mut self, opened: Result<rusqlite::Connection, rusqlite::Error>) -> (outcome:
        Result<(), BoundaryError>)
        ensures
            match opened {
                Ok(connection) => outcome is Ok && final(self).handle() == Some(connection),
                Err(error) => {
                    &&& outcome matches Err(failure)
                    &&& failure@ == ErrorModel::ConnectionError(error_message(error))
                    &&& final(self).handle() == old(self).handle()
                },
            },
    {
        match opened {
            Ok(connection) => {
                self.connection = Some(connection);
                Ok(())
            },
            Err(error) => Err(BoundaryError::ConnectionError(error_text(&error))),
        }
    }

    /// Opens the database at `path` and installs the connection in place of
    /// the one before. Where the database cannot be opened the registry
    /// stays as it was.
    pub fn initialize(&mut self, path: &str) -> (outcome: Result<(), BoundaryError>)
        ensures
            outcome is Ok ==> final(self).is_initialized(),
            outcome matches Err(failure) ==> failure@ is ConnectionError && final(self).handle()
                == old(self).handle(),
    {
        self.install(open_database(path))
    }

    /// Executes `sql` with `params` bound in order, in the mode that `mode`
    /// names.
    ///
    /// Without a connection the outcome is `NotInitialized`, whatever the
    /// mode. With one, a mode that is none of `run`, `get`, `all` gives
    /// `InvalidMode` with the text received, before anything is asked of the
    /// engine. Otherwise the engine decides: a failure of its own comes back
    /// as `SqlError`, also where it comes while a row is fetched, and a
    /// `get` that finds no row as `NoRowFound`.
    ///
    /// Modes `get` and `all` read the column names of the statement, and
    /// the engine panics on a column name that is not valid UTF-8. It does
    /// not check names when they are stored, so a database file whose
    /// schema was written elsewhere with malformed text can hold one. Such
    /// a database is left out: in these two modes the connection must be
    /// one on which every statement names its columns in valid UTF-8. Mode
    /// `run` reads no names and serves every connection.
    pub fn execute(&self, sql: &str, params: &Vec<UntypedValue>, mode: &str) -> (outcome: Result<
        ResultDocument,
        BoundaryError,
    >)
        requires
            mode_of(mode@) == Some(Mode::Get) || mode_of(mode@) == Some(Mode::All)
                ==> self.names_columns_in_text(),
        ensures
            !self.is_initialized() ==> (outcome matches Err(failure) && failure@
                == ErrorModel::NotInitialized),
            self.is_initialized() && mode_of(mode@) is None ==> (outcome matches Err(failure)
                && failure@ == ErrorModel::InvalidMode(mode@)),
            self.is_initialized() && mode_of(mode@) is Some ==> match outcome {
                Ok(document) => {
                    &&& document@.wf()
                    &&& mode_of(mode@) == Some(Mode::Run) <==> document is Changes
                    &&& mode_of(mode@) == Some(Mode::Get) <==> document is Row
                    &&& mode_of(mode@) == Some(Mode::All) <==> document is Rows
                },
                Err(failure) => failure@ is SqlError || (failure@ is NoRowFound && mode_of(mode@)
                    == Some(Mode::Get)),
            },
    {
        let known = match self.route(mode) {
            Ok(known) => known,
            Err(failure) => {
                return Err(failure);
            },
        };
        let connection = match self.connection() {
            Ok(connection) => connection,
            Err(failure) => {
                return Err(failure);
            },
        };
        let bound = bind_all(params);
        match known {
            Mode::Run => run_outcome(execute_once(connection, sql, &bound)),
            Mode::Get => fetch_one(connection, sql, &bound),
            Mode::All => fetch_all(connection, sql, &bound),
        }
    }
}

/// Runs a query and fetches its first row.
fn fetch_one(connection: &rusqlite::Connection, sql: &str, params: &Vec<SqlValue>) -> (outcome:
    Result<ResultDocument, BoundaryError>)
    requires
        names_in_text(*connection),
    ensures
        match outcome {
            Ok(document) => document is Row && document@.wf(),
            Err(failure) => failure@ is SqlError || failure@ is NoRowFound,
        },
{
    let mut statement = match prepare(connection, sql) {
        Ok(statement) => statement,
        Err(error) => {
            return Err(sql_failure(&error));
        },
    };
    let columns = column_names(&statement);
    let mut rows = match query(&mut statement, params) {
        Ok(rows) => rows,
        Err(error) => {
            return Err(sql_failure(&error));
        },
    };
    let stepped = read_step(next_row(&mut rows), columns.len());
    proof {
        if stepped is Ok && stepped->Ok_0 is Some {
            lemma_row_of_cells(texts(columns@), models(stepped->Ok_0->Some_0@));
        }
    }
    first_step_outcome(&columns, stepped)
}

/// Runs a query and fetches every row, in the order in which the engine
/// gives them.
fn fetch_all(connection: &rusqlite::Connection, sql: &str, params: &Vec<SqlValue>) -> (outcome:
    Result<ResultDocument, BoundaryError>)
    requires
        names_in_text(*connection),
    ensures
        match outcome {
            Ok(document) => document is Rows && document@.wf(),
            Err(failure) => failure@ is SqlError,
        },
{
    let mut statement = match prepare(connection, sql) {
        Ok(statement) => statement,
        Err(error) => {
            return Err(sql_failure(&error));
        },
    };
    let columns = column_names(&statement);
    let mut rows = match query(&mut statement, params) {
        Ok(rows) => rows,
        Err(error) => {
            return Err(sql_failure(&error));
        },
    };
    let mut fetched: Vec<Vec<UntypedValue>> = Vec::new();
    let mut ended: Result<(), rusqlite::Error> = Ok(());
    // A vector holds fewer than `usize::MAX` rows, which bounds the loop.
    while fetched.len() < usize::MAX
        invariant
            forall|i: int| 0 <= i < fetched@.len() ==> are_cells(models(#[trigger] fetched@[i]@)),
        decreases usize::MAX - fetched@.len(),
    {
        match read_step(next_row(&mut rows), columns.len()) {
            Ok(Some(cells)) => {
                assert(are_cells(models(cells@)));
                fetched.push(cells);
            },
            Ok(None) => {
                break ;
            },
            Err(error) => {
                ended = Err(error);
                break ;
            },
        }
    }
    proof {
        assert forall|i: int| 0 <= i < fetched@.len() implies is_row(
            #[trigger] zipped(texts(columns@), models(fetched@[i]@)),
        ) by {
            lemma_row_of_cells(texts(columns@), models(fetched@[i]@));
        }
    }
    rows_outcome(&columns, fetched, ended)
}

} // verus!

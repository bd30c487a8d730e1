//! The boundary to the database engine. Nothing in this file is proved: each
//! item states what is taken of the engine, and the rest of the crate is
//! verified against these statements.
//!
//! No item here says anything of a database: what a database holds is not
//! the connection's to fix, since others may write to it. What the items
//! say is what a connection was asked and what it answered, one exchange
//! after the other. What an answer holds is the engine's to decide.

use vstd::prelude::*;
use crate::model::{folder_views, note_views, text_view, Folder, FolderView, Note, NoteView};
use crate::statements::{value_views, SqlValue, SqlValueView};

verus! {

/// `rusqlite::Connection`, a connection to one database. Nothing inside
/// it is visible here.
#[verifier::external_type_specification]
#[verifier::external_body]
pub struct ExConnection(rusqlite::Connection);

/// `rusqlite::Error`, the engine's account of a failure, carried through
/// as it is.
#[verifier::external_type_specification]
#[verifier::external_body]
pub struct ExEngineError(rusqlite::Error);

/// `rusqlite::types::Value`, a value in the form in which the engine binds
/// it to a placeholder.
#[verifier::external_type_specification]
#[verifier::external_body]
pub struct ExEngineValue(rusqlite::types::Value);

/// What the engine answered to one statement.
pub ghost enum Answer {
    /// It failed, with this account.
    Failed(rusqlite::Error),
    /// It ran the statement to its end and changed this many rows.
    Changed(nat),
    /// It read these notes, in this order.
    Notes(Seq<NoteView>),
    /// It read these folders, in this order.
    Folders(Seq<FolderView>),
}

/// One exchange with the engine: a statement, the values bound to its
/// placeholders, and the engine's answer.
pub ghost struct Exchange {
    pub sql: Seq<char>,
    pub values: Seq<SqlValueView>,
    pub answer: Answer,
}

/// The answer that stands for the result of a statement that changes rows.
pub open spec fn change_answer(r: Result<usize, rusqlite::Error>) -> Answer {
    match r {
        Ok(rows) => Answer::Changed(rows as nat),
        Err(failure) => Answer::Failed(failure),
    }
}

/// The answer that stands for the result of a statement that reads notes.
pub open spec fn notes_answer(r: Result<Vec<Note>, rusqlite::Error>) -> Answer {
    match r {
        Ok(notes) => Answer::Notes(note_views(notes@)),
        Err(failure) => Answer::Failed(failure),
    }
}

/// The answer that stands for the result of a statement that reads folders.
pub open spec fn folders_answer(r: Result<Vec<Folder>, rusqlite::Error>) -> Answer {
    match r {
        Ok(folders) => Answer::Folders(folder_views(folders@)),
        Err(failure) => Answer::Failed(failure),
    }
}

/// The exchanges that a connection has had with the engine since it was
/// opened, oldest first. Only a call through the connection adds to them.
pub uninterp spec fn exchanges_of(conn: rusqlite::Connection) -> Seq<Exchange>;

/// The place that a connection was opened on: the path or address handed
/// to the engine when it was opened.
pub uninterp spec fn place_of(conn: rusqlite::Connection) -> Seq<char>;

/// The engine's own message in a failure, where the failure is one that the
/// engine reported with a message.
pub uninterp spec fn said_by(failure: rusqlite::Error) -> Option<Seq<char>>;

/// `rusqlite::Connection::open`: a connection opened on `path`, which has
/// had no exchange yet. Whether the engine opens it, and what is at that
/// place, is not claimed.
#[verifier::external_body]
pub(crate) fn connect(path: &str) -> (r: Result<rusqlite::Connection, rusqlite::Error>)
    ensures
        r is Ok ==> place_of(r->Ok_0) == path@,
        r is Ok ==> exchanges_of(r->Ok_0).len() == 0,
{
    rusqlite::Connection::open(path)
}

/// `rusqlite::Connection::open_in_memory`: a connection opened on
/// `:memory:`, the engine's address for a database of its own in memory,
/// which has had no exchange yet.
#[verifier::external_body]
pub(crate) fn connect_in_memory() -> (r: Result<rusqlite::Connection, rusqlite::Error>)
    ensures
        r is Ok ==> place_of(r->Ok_0) == ":memory:"@,
        r is Ok ==> exchanges_of(r->Ok_0).len() == 0,
{
    rusqlite::Connection::open_in_memory()
}

/// A bound value in the engine's own type: `Null`, `Integer` and `Text` keep
/// their name and what they hold.
#[verifier::external_body]
pub(crate) fn engine_value(value: &SqlValue) -> rusqlite::types::Value {
    match value {
        SqlValue::Null => rusqlite::types::Value::Null,
        SqlValue::Integer(i) => rusqlite::types::Value::Integer(*i),
        SqlValue::Text(s) => rusqlite::types::Value::Text(s.clone()),
    }
}

/// `rusqlite::Connection::execute`: hands the engine the one statement with
/// the values bound in order; the result is the number of rows that the
/// statement changed, or the engine's failure. The exchange is added to
/// those of the connection, whatever the answer.
#[verifier::external_body]
pub(crate) fn execute(conn: &mut rusqlite::Connection, sql: &str, values: &Vec<SqlValue>) -> (r:
    Result<usize, rusqlite::Error>)
    ensures
        exchanges_of(*final(conn)) == exchanges_of(*old(conn)).push(
            Exchange { sql: sql@, values: value_views(values@), answer: change_answer(r) },
        ),
        place_of(*final(conn)) == place_of(*old(conn)),
{
    conn.execute(sql, rusqlite::params_from_iter(values.iter().map(engine_value)))
}

/// `rusqlite::Connection::prepare`, `Statement::query_map` and `Row::get`:
/// hands the engine a statement that selects notes and reads each row's
/// nine columns into a note, in the order of the rows. A row that does not
/// hold a note makes the whole call fail. The exchange is added to those
/// of the connection, whatever the answer.
#[verifier::external_body]
pub(crate) fn query_notes(conn: &mut rusqlite::Connection, sql: &str, values: &Vec<SqlValue>) -> (r:
    Result<Vec<Note>, rusqlite::Error>)
    ensures
        exchanges_of(*final(conn)) == exchanges_of(*old(conn)).push(
            Exchange { sql: sql@, values: value_views(values@), answer: notes_answer(r) },
        ),
        place_of(*final(conn)) == place_of(*old(conn)),
{
    let mut statement = conn.prepare(sql)?;
    let bound = rusqlite::params_from_iter(values.iter().map(engine_value));
    let rows = statement.query_map(bound, |row| {
        Ok(Note {
            id: row.get(0)?, title: row.get(1)?, content: row.get(2)?,
            folder_id: row.get(3)?, is_pinned: row.get(4)?, pinned_at: row.get(5)?,
            font: row.get(6)?, updated_at: row.get(7)?, created_at: row.get(8)?,
        })
    })?;
    rows.collect()
}

/// `rusqlite::Connection::prepare`, `Statement::query_map` and `Row::get`:
/// hands the engine the statement that selects folders and reads each
/// row's three columns into a folder, in the order of the rows. The
/// exchange is added to those of the connection, whatever the answer.
#[verifier::external_body]
pub(crate) fn query_folders(
    conn: &mut rusqlite::Connection,
    sql: &str,
    values: &Vec<SqlValue>,
) -> (r: Result<Vec<Folder>, rusqlite::Error>)
    ensures
        exchanges_of(*final(conn)) == exchanges_of(*old(conn)).push(
            Exchange { sql: sql@, values: value_views(values@), answer: folders_answer(r) },
        ),
        place_of(*final(conn)) == place_of(*old(conn)),
{
    let mut statement = conn.prepare(sql)?;
    let bound = rusqlite::params_from_iter(values.iter().map(engine_value));
    let rows = statement.query_map(bound, |row| {
        Ok(Folder { id: row.get(0)?, name: row.get(1)?, created_at: row.get(2)? })
    })?;
    rows.collect()
}

/// The message that the engine gave with a failure: that of
/// `rusqlite::Error::SqliteFailure` or of `rusqlite::Error::SqlInputError`,
/// and none for a failure of another kind.
#[verifier::external_body]
pub(crate) fn engine_message(failure: &rusqlite::Error) -> (message: Option<String>)
    ensures
        text_view(message) == said_by(*failure),
{
    match failure {
        rusqlite::Error::SqliteFailure(_, message) => message.clone(),
        rusqlite::Error::SqlInputError { msg, .. } => Some(msg.clone()),
        _ => None,
    }
}

} // verus!

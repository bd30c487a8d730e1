//! The statements that the store sends to the database engine, and the
//! values it binds to their placeholders.

use vstd::prelude::*;
use crate::model::{Folder, FolderView, Note, NoteView};

verus! {

/// Creates the table of notes where it is missing.
pub const CREATE_NOTES: &'static str = "CREATE TABLE IF NOT EXISTS notes (
    id TEXT PRIMARY KEY,
    title TEXT NOT NULL DEFAULT '',
    content TEXT NOT NULL DEFAULT '',
    folder_id TEXT,
    is_pinned INTEGER DEFAULT 0,
    pinned_at TEXT,
    font TEXT,
    updated_at TEXT NOT NULL,
    created_at TEXT NOT NULL
)";

/// Creates the table of folders where it is missing.
pub const CREATE_FOLDERS: &'static str = "CREATE TABLE IF NOT EXISTS folders (
    id TEXT PRIMARY KEY,
    name TEXT NOT NULL,
    created_at TEXT NOT NULL
)";

/// Creates the full-text index over identifier, title and content where it
/// is missing.
pub const CREATE_NOTES_INDEX: &'static str =
    "CREATE VIRTUAL TABLE IF NOT EXISTS notes_fts USING fts5(id, title, content)";

/// Creates the index of notes by folder where it is missing.
pub const INDEX_NOTES_BY_FOLDER: &'static str =
    "CREATE INDEX IF NOT EXISTS idx_notes_folder_id ON notes(folder_id)";

/// Creates the index of notes by the time of their last change, newest
/// first, where it is missing.
pub const INDEX_NOTES_BY_UPDATE: &'static str =
    "CREATE INDEX IF NOT EXISTS idx_notes_updated_at ON notes(updated_at DESC)";

/// Creates the index of notes by their pin where it is missing.
pub const INDEX_NOTES_BY_PIN: &'static str =
    "CREATE INDEX IF NOT EXISTS idx_notes_is_pinned ON notes(is_pinned)";

/// Adds the pin time to a table of notes from before there was one. The
/// engine refuses it where the column is there.
pub const ADD_PINNED_AT: &'static str = "ALTER TABLE notes ADD COLUMN pinned_at TEXT";

/// Adds the font to a table of notes from before there was one. The engine
/// refuses it where the column is there.
pub const ADD_FONT: &'static str = "ALTER TABLE notes ADD COLUMN font TEXT";

/// Inserts a note's row, or overwrites every field but the time of
/// creation of the row that has its identifier.
pub const UPSERT_NOTE: &'static str =
    "INSERT INTO notes (id, title, content, folder_id, is_pinned, pinned_at, font, updated_at, created_at)
VALUES (?1, ?2, ?3, ?4, ?5, ?6, ?7, ?8, ?9)
ON CONFLICT(id) DO UPDATE SET
    title = excluded.title,
    content = excluded.content,
    folder_id = excluded.folder_id,
    is_pinned = excluded.is_pinned,
    pinned_at = excluded.pinned_at,
    font = excluded.font,
    updated_at = excluded.updated_at";

/// Inserts a note's entry in the full-text index, in place of the entry
/// that has its identifier where there is one.
pub const UPSERT_NOTE_INDEX: &'static str =
    "INSERT OR REPLACE INTO notes_fts (rowid, id, title, content)
VALUES ((SELECT rowid FROM notes_fts WHERE id = ?1), ?1, ?2, ?3)";

/// Deletes the row of the note with the given identifier.
pub const DELETE_NOTE: &'static str = "DELETE FROM notes WHERE id = ?1";

/// Deletes the entry in the full-text index of the note with the given
/// identifier.
pub const DELETE_NOTE_INDEX: &'static str = "DELETE FROM notes_fts WHERE id = ?1";

/// Sets the pin, the pin time and the time of the last change of the note
/// with the given identifier.
pub const UPDATE_PIN: &'static str =
    "UPDATE notes SET is_pinned = ?1, pinned_at = ?2, updated_at = ?3 WHERE id = ?4";

/// Inserts a folder's row, or gives the row that has its identifier the
/// new name.
pub const UPSERT_FOLDER: &'static str =
    "INSERT INTO folders (id, name, created_at) VALUES (?1, ?2, ?3)
ON CONFLICT(id) DO UPDATE SET name = excluded.name";

/// Unfiles every note that is filed under the given folder.
pub const UNFILE_NOTES: &'static str = "UPDATE notes SET folder_id = NULL WHERE folder_id = ?1";

/// Deletes the row of the folder with the given identifier.
pub const DELETE_FOLDER: &'static str = "DELETE FROM folders WHERE id = ?1";

/// Reads all notes: pinned ones first, then by pin time, then by the time
/// of the last change, the latest first each time.
pub const SELECT_ALL_NOTES: &'static str =
    "SELECT id, title, content, folder_id, is_pinned, pinned_at, font, updated_at, created_at
FROM notes
ORDER BY is_pinned DESC, pinned_at DESC, updated_at DESC";

/// Reads the note with the given identifier.
pub const SELECT_NOTE: &'static str =
    "SELECT id, title, content, folder_id, is_pinned, pinned_at, font, updated_at, created_at
FROM notes
WHERE id = ?1";

/// Reads the notes whose index entry matches the given full-text query,
/// best match first, fifty at most.
pub const SEARCH_NOTES: &'static str =
    "SELECT n.id, n.title, n.content, n.folder_id, n.is_pinned, n.pinned_at, n.font, n.updated_at, n.created_at
FROM notes n
JOIN notes_fts f ON n.id = f.id
WHERE notes_fts MATCH ?1
ORDER BY rank
LIMIT 50";

/// Reads all folders, the one created last first.
pub const SELECT_ALL_FOLDERS: &'static str =
    "SELECT id, name, created_at FROM folders ORDER BY created_at DESC";

/// A value bound to a placeholder: nothing, a whole number or a text.
#[derive(Debug)]
pub enum SqlValue {
    Null,
    Integer(i64),
    Text(String),
}

/// A bound value as a mathematical value.
pub ghost enum SqlValueView {
    Null,
    Integer(int),
    Text(Seq<char>),
}

impl View for SqlValue {
    type V = SqlValueView;

    open spec fn view(&self) -> SqlValueView {
        match *self {
            SqlValue::Null => SqlValueView::Null,
            SqlValue::Integer(i) => SqlValueView::Integer(i as int),
            SqlValue::Text(s) => SqlValueView::Text(s@),
        }
    }
}

/// The views of a list of bound values, in the same order.
pub open spec fn value_views(values: Seq<SqlValue>) -> Seq<SqlValueView> {
    Seq::new(values.len(), |i: int| values[i]@)
}

/// What an optional text is bound as: the text, or nothing.
pub open spec fn optional_text(text: Option<Seq<char>>) -> SqlValueView {
    match text {
        Some(s) => SqlValueView::Text(s),
        None => SqlValueView::Null,
    }
}

/// What a flag is bound as: one for true, zero for false.
pub open spec fn flag(on: bool) -> SqlValueView {
    SqlValueView::Integer(if on { 1 } else { 0 })
}

/// The values of a note's row: the note's fields in the order of the
/// columns, with `updated_at` as the time under which it is filed.
pub open spec fn note_row(note: NoteView, updated_at: Seq<char>) -> Seq<SqlValueView> {
    seq![
        SqlValueView::Text(note.id),
        SqlValueView::Text(note.title),
        SqlValueView::Text(note.content),
        optional_text(note.folder_id),
        flag(note.is_pinned),
        optional_text(note.pinned_at),
        optional_text(note.font),
        SqlValueView::Text(updated_at),
        SqlValueView::Text(note.created_at),
    ]
}

/// The values of a note's entry in the search index.
pub open spec fn index_row(note: NoteView) -> Seq<SqlValueView> {
    seq![
        SqlValueView::Text(note.id),
        SqlValueView::Text(note.title),
        SqlValueView::Text(note.content),
    ]
}

/// The values that set a note's pin: the flag, the pin time, the time of
/// the change, and the note they go to.
pub open spec fn pin_row(note: NoteView) -> Seq<SqlValueView> {
    seq![
        flag(note.is_pinned),
        optional_text(note.pinned_at),
        SqlValueView::Text(note.updated_at),
        SqlValueView::Text(note.id),
    ]
}

/// The values of a folder's row.
pub open spec fn folder_row(folder: FolderView) -> Seq<SqlValueView> {
    seq![
        SqlValueView::Text(folder.id),
        SqlValueView::Text(folder.name),
        SqlValueView::Text(folder.created_at),
    ]
}

/// The one value of a statement that is about a single text.
pub open spec fn single(text: Seq<char>) -> Seq<SqlValueView> {
    seq![SqlValueView::Text(text)]
}

fn bind_text(text: &str) -> (value: SqlValue)
    ensures
        value@ == SqlValueView::Text(text@),
{
    SqlValue::Text(text.to_owned())
}

fn bind_optional_text(text: &Option<String>) -> (value: SqlValue)
    ensures
        value@ == optional_text(crate::model::text_view(*text)),
{
    match text {
        Some(s) => SqlValue::Text(s.clone()),
        None => SqlValue::Null,
    }
}

fn bind_flag(on: bool) -> (value: SqlValue)
    ensures
        value@ == flag(on),
{
    if on {
        SqlValue::Integer(1)
    } else {
        SqlValue::Integer(0)
    }
}

/// No values, for a statement without placeholders.
pub fn no_values() -> (values: Vec<SqlValue>)
    ensures
        value_views(values@) == Seq::<SqlValueView>::empty(),
{
    let values: Vec<SqlValue> = Vec::new();
    assert(value_views(values@) =~= Seq::<SqlValueView>::empty());
    values
}

/// The values of a note's row, to go with `UPSERT_NOTE`.
pub fn note_values(note: &Note, updated_at: &str) -> (values: Vec<SqlValue>)
    ensures
        value_views(values@) == note_row(note@, updated_at@),
{
    let mut values: Vec<SqlValue> = Vec::new();
    values.push(bind_text(note.id.as_str()));
    values.push(bind_text(note.title.as_str()));
    values.push(bind_text(note.content.as_str()));
    values.push(bind_optional_text(&note.folder_id));
    values.push(bind_flag(note.is_pinned));
    values.push(bind_optional_text(&note.pinned_at));
    values.push(bind_optional_text(&note.font));
    values.push(bind_text(updated_at));
    values.push(bind_text(note.created_at.as_str()));
    assert(value_views(values@) =~= note_row(note@, updated_at@));
    values
}

/// The values of a note's index entry, to go with `UPSERT_NOTE_INDEX`.
pub fn index_values(note: &Note) -> (values: Vec<SqlValue>)
    ensures
        value_views(values@) == index_row(note@),
{
    let mut values: Vec<SqlValue> = Vec::new();
    values.push(bind_text(note.id.as_str()));
    values.push(bind_text(note.title.as_str()));
    values.push(bind_text(note.content.as_str()));
    assert(value_views(values@) =~= index_row(note@));
    values
}

/// The values that set a note's pin, to go with `UPDATE_PIN`.
pub fn pin_values(note: &Note) -> (values: Vec<SqlValue>)
    ensures
        value_views(values@) == pin_row(note@),
{
    let mut values: Vec<SqlValue> = Vec::new();
    values.push(bind_flag(note.is_pinned));
    values.push(bind_optional_text(&note.pinned_at));
    values.push(bind_text(note.updated_at.as_str()));
    values.push(bind_text(note.id.as_str()));
    assert(value_views(values@) =~= pin_row(note@));
    values
}

/// The values of a folder's row, to go with `UPSERT_FOLDER`.
pub fn folder_values(folder: &Folder) -> (values: Vec<SqlValue>)
    ensures
        value_views(values@) == folder_row(folder@),
{
    let mut values: Vec<SqlValue> = Vec::new();
    values.push(bind_text(folder.id.as_str()));
    values.push(bind_text(folder.name.as_str()));
    values.push(bind_text(folder.created_at.as_str()));
    assert(value_views(values@) =~= folder_row(folder@));
    values
}

/// The one value of a statement that is about a single text.
pub fn single_value(text: &str) -> (values: Vec<SqlValue>)
    ensures
        value_views(values@) == single(text@),
{
    let mut values: Vec<SqlValue> = Vec::new();
    values.push(bind_text(text));
    assert(value_views(values@) =~= single(text@));
    values
}

} // verus!

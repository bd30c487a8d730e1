//! The decisions of the store that need no database: which identifiers it
//! takes, under which time a note is filed, what a pin toggle does to a
//! note, and which row answers a lookup.

use vstd::prelude::*;
use vstd::string::StrSliceExecFns;
use crate::error::Invalid;
use crate::model::{text_view, Note, NoteView};
use crate::text::{begins_with, starts_with};

verus! {

/// Longest note identifier, in characters, that the store takes.
pub const MAX_NOTE_ID_CHARS: usize = 100;

/// What is wrong with the identifier of a note that is to be saved, if
/// anything: it is empty, or it is longer than a hundred characters.
pub open spec fn note_id_issue(id: Seq<char>) -> Option<Invalid> {
    if id.len() == 0 {
        Some(Invalid::EmptyNoteId)
    } else if id.len() > MAX_NOTE_ID_CHARS {
        Some(Invalid::NoteIdTooLong)
    } else {
        None
    }
}

/// What is wrong with the identifier of a note that is to be saved, if
/// anything.
pub fn check_note_id(id: &str) -> (issue: Option<Invalid>)
    ensures
        issue == note_id_issue(id@),
{
    if id.is_empty() {
        Some(Invalid::EmptyNoteId)
    } else if id.unicode_len() > MAX_NOTE_ID_CHARS {
        Some(Invalid::NoteIdTooLong)
    } else {
        None
    }
}

/// The time under which a note is filed: the one it brings, or the
/// current time where it brings none.
pub open spec fn filed_at(given: Seq<char>, now: Seq<char>) -> Seq<char> {
    if given.len() == 0 {
        now
    } else {
        given
    }
}

/// The time under which a note is filed: the one it brings, or the
/// current time where it brings none.
pub fn file_time(given: &str, now: &str) -> (stamp: String)
    ensures
        stamp@ == filed_at(given@, now@),
{
    if given.is_empty() {
        now.to_owned()
    } else {
        given.to_owned()
    }
}

/// The note after its pin has been toggled at time `now`: the flag is
/// flipped, the pin time is `now` if the note is pinned after that and
/// absent if not, the note counts as changed at `now`, and every other
/// field is as it was.
pub open spec fn toggled(note: NoteView, now: Seq<char>) -> NoteView {
    NoteView {
        is_pinned: !note.is_pinned,
        pinned_at: if note.is_pinned {
            None
        } else {
            Some(now)
        },
        updated_at: now,
        ..note
    }
}

/// Toggles the pin of a note at time `now`.
pub fn toggle(note: Note, now: &str) -> (after: Note)
    ensures
        after@ == toggled(note@, now@),
{
    let pinned = !note.is_pinned;
    let pinned_at = if pinned {
        Some(now.to_owned())
    } else {
        None
    };
    Note {
        id: note.id,
        title: note.title,
        content: note.content,
        folder_id: note.folder_id,
        is_pinned: pinned,
        pinned_at,
        font: note.font,
        updated_at: now.to_owned(),
        created_at: note.created_at,
    }
}

/// Toggling the pin of a note twice gives it back the pin it had, and
/// touches nothing but the two times.
pub proof fn lemma_toggle_twice_restores_pin(note: NoteView, first: Seq<char>, second: Seq<char>)
    ensures
        toggled(toggled(note, first), second).is_pinned == note.is_pinned,
        toggled(toggled(note, first), second) == (NoteView {
            pinned_at: toggled(toggled(note, first), second).pinned_at,
            updated_at: second,
            ..note
        }),
{
}

/// After a toggle a note carries a pin time exactly while it is pinned,
/// whatever it carried before.
pub proof fn lemma_toggled_is_pin_consistent(note: NoteView, now: Seq<char>)
    ensures
        toggled(note, now).pin_consistent(),
        toggled(note, now).pinned_at is None <==> !toggled(note, now).is_pinned,
{
}

/// A note that brings the time of its last change is filed under it; one
/// that brings none is filed under the current time. So a note is filed
/// under no time only if the clock gives none.
pub proof fn lemma_filed_under_a_time(given: Seq<char>, now: Seq<char>)
    ensures
        given.len() > 0 ==> filed_at(given, now) == given,
        given.len() == 0 ==> filed_at(given, now) == now,
        now.len() > 0 ==> filed_at(given, now).len() > 0,
{
}

/// How the engine's message begins where a column that was to be added is
/// there already.
pub const COLUMN_IS_THERE: &'static str = "duplicate column name";

/// Whether the engine's message says that a column that was to be added is
/// there already. A failure without a message does not say so.
pub open spec fn column_is_there(message: Option<Seq<char>>) -> bool {
    message is Some && begins_with(message->0, COLUMN_IS_THERE@)
}

/// Whether the engine's message says that a column that was to be added is
/// there already.
pub fn says_column_is_there(message: &Option<String>) -> (yes: bool)
    ensures
        yes == column_is_there(text_view(*message)),
{
    match message {
        Some(text) => starts_with(text.as_str(), COLUMN_IS_THERE),
        None => false,
    }
}

/// The first of the rows, if there is one.
pub open spec fn first_row(rows: Seq<NoteView>) -> Option<NoteView> {
    if rows.len() == 0 {
        None
    } else {
        Some(rows[0])
    }
}

/// The first of the notes, if there is one; the others are dropped.
pub fn first_note(notes: Vec<Note>) -> (first: Option<Note>)
    ensures
        first is Some <==> notes.len() > 0,
        first is Some ==> first->0 == notes[0],
{
    let mut notes = notes;
    if notes.len() == 0 {
        None
    } else {
        Some(notes.remove(0))
    }
}

} // verus!

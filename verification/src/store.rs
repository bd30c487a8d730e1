//! The store: one connection to the database, and every operation on notes
//! and folders as a method that holds it exclusively while it runs.
//!
//! A contract of the store speaks of the exchanges that the store has had
//! with the engine: which statements it handed over, in which order and
//! with which values, what the engine answered to each, and what the store
//! made of the answers. Of what the database holds it says nothing.

use vstd::prelude::*;
use vstd::string::StringExecFns;
use crate::clock::now_rfc3339;
use crate::engine::{
    connect,
    connect_in_memory,
    engine_message,
    exchanges_of,
    execute,
    place_of,
    query_folders,
    query_notes,
    said_by,
    Answer,
    Exchange,
};
use crate::error::{Invalid, StoreError};
use crate::model::{folder_views, note_views, Folder, Note, NoteView};
use crate::rules::{
    check_note_id,
    column_is_there,
    file_time,
    filed_at,
    first_note,
    first_row,
    lemma_toggle_twice_restores_pin,
    lemma_toggled_is_pin_consistent,
    note_id_issue,
    says_column_is_there,
    toggle,
    toggled,
};
use crate::search::{
    cap_results,
    capped,
    is_blank,
    lemma_blank_sanitizes_to_nothing,
    sanitize_fts_query,
    sanitized,
    MAX_RESULTS,
};
use crate::statements::{
    folder_row,
    folder_values,
    index_row,
    index_values,
    no_values,
    note_row,
    note_values,
    pin_row,
    pin_values,
    single,
    single_value,
    value_views,
    SqlValueView,
    ADD_FONT,
    ADD_PINNED_AT,
    CREATE_FOLDERS,
    CREATE_NOTES,
    CREATE_NOTES_INDEX,
    DELETE_FOLDER,
    DELETE_NOTE,
    DELETE_NOTE_INDEX,
    INDEX_NOTES_BY_FOLDER,
    INDEX_NOTES_BY_PIN,
    INDEX_NOTES_BY_UPDATE,
    SEARCH_NOTES,
    SELECT_ALL_FOLDERS,
    SELECT_ALL_NOTES,
    SELECT_NOTE,
    UNFILE_NOTES,
    UPDATE_PIN,
    UPSERT_FOLDER,
    UPSERT_NOTE,
    UPSERT_NOTE_INDEX,
};

verus! {

/// The handle on the database. It owns the only connection; every method
/// that asks the engine for anything takes the handle by `&mut`, so no two
/// operations ever overlap.
pub struct Store {
    conn: rusqlite::Connection,
}

/// Whether `text` is what the engine's failure prints as. The relation is
/// the one under which the standard library's `to_string` is specified.
pub open spec fn words_of(failure: &rusqlite::Error, text: String) -> bool {
    vstd::string::to_string_from_display_ensures::<rusqlite::Error>(failure, text)
}

/// An engine failure as a failure of the store: a storage failure whose
/// text is what the engine's failure prints as.
pub fn storage_failure(failure: &rusqlite::Error) -> (e: StoreError)
    ensures
        e is Storage,
        words_of(failure, e->Storage_0),
{
    StoreError::Storage(failure.to_string())
}

/// What the store makes of an answer of the engine: the answer itself, or
/// the engine's failure as a storage failure.
pub fn surface<T>(answer: Result<T, rusqlite::Error>) -> (r: Result<T, StoreError>)
    ensures
        answer is Ok ==> r == Ok::<T, StoreError>(answer->Ok_0),
        answer is Err ==> r is Err && r->Err_0 is Storage && words_of(
            &answer->Err_0,
            r->Err_0->Storage_0,
        ),
{
    match answer {
        Ok(value) => Ok(value),
        Err(failure) => Err(storage_failure(&failure)),
    }
}

/// An engine failure while the search index was written, as a failure of
/// the store: the report that the index is behind, whose text is what the
/// engine's failure prints as.
pub fn index_failure(failure: &rusqlite::Error) -> (e: StoreError)
    ensures
        e is IndexSync,
        words_of(failure, e->IndexSync_0),
{
    StoreError::IndexSync(failure.to_string())
}

/// What the store makes of the engine's answer to a statement that
/// changes rows: a success whatever the number of rows changed, none
/// included, and a storage failure where the engine failed.
pub fn written(answer: Result<usize, rusqlite::Error>) -> (r: Result<(), StoreError>)
    ensures
        answer is Ok <==> r is Ok,
        answer is Err ==> r->Err_0 is Storage && words_of(&answer->Err_0, r->Err_0->Storage_0),
{
    match answer {
        Ok(_) => Ok(()),
        Err(failure) => Err(storage_failure(&failure)),
    }
}

/// What the store makes of the engine's answer to the statement that
/// writes a note's entry in the search index, after the note's row was
/// written: a success, or the report that the index is behind.
pub fn indexed(answer: Result<usize, rusqlite::Error>) -> (r: Result<(), StoreError>)
    ensures
        answer is Ok <==> r is Ok,
        answer is Err ==> r->Err_0 is IndexSync && words_of(
            &answer->Err_0,
            r->Err_0->IndexSync_0,
        ),
{
    match answer {
        Ok(_) => Ok(()),
        Err(failure) => Err(index_failure(&failure)),
    }
}

/// The note that a lookup by identifier found: the first of the rows, or
/// `NotFound` where there is none.
pub fn found(rows: Vec<Note>) -> (r: Result<Note, StoreError>)
    ensures
        rows.len() == 0 ==> r == Err::<Note, StoreError>(StoreError::NotFound),
        rows.len() > 0 ==> r == Ok::<Note, StoreError>(rows[0]),
{
    match first_note(rows) {
        Some(note) => Ok(note),
        None => Err(StoreError::NotFound),
    }
}

/// Whether the engine's failure is one that setting up passes over: the
/// failure to add a column that is there already.
pub fn passed_over(failure: &rusqlite::Error) -> (yes: bool)
    ensures
        yes == column_is_there(said_by(*failure)),
{
    let message = engine_message(failure);
    says_column_is_there(&message)
}

/// The exchange in which the engine was handed `sql` with `values` and
/// gave `answer`.
pub open spec fn asked(sql: Seq<char>, values: Seq<SqlValueView>, answer: Answer) -> Exchange {
    Exchange { sql, values, answer }
}

/// Whether `e` is the storage failure that tells of the engine's failure
/// in `answer`, in the engine's own words.
pub open spec fn reports(e: StoreError, answer: Answer) -> bool {
    answer is Failed && e is Storage && words_of(&answer->Failed_0, e->Storage_0)
}

/// Whether `e` is the report that the index is behind, in the words of the
/// engine's failure in `answer`.
pub open spec fn reports_index(e: StoreError, answer: Answer) -> bool {
    answer is Failed && e is IndexSync && words_of(&answer->Failed_0, e->IndexSync_0)
}

/// Whether `text` is the account of some failure of the engine.
pub open spec fn engine_words(text: String) -> bool {
    exists|failure: rusqlite::Error| #[trigger] words_of(&failure, text)
}

/// Whether one exchange has come after `before`: the engine was handed
/// `sql` with `values`, once, and gave the answer that `after` ends with.
pub open spec fn one_more(
    before: Seq<Exchange>,
    after: Seq<Exchange>,
    sql: Seq<char>,
    values: Seq<SqlValueView>,
) -> bool {
    after.len() == before.len() + 1 && after == before.push(
        asked(sql, values, after[before.len() as int].answer),
    )
}

/// Whether two exchanges have come after `before`: the engine was handed
/// `sql` with `values`, then `next_sql` with `next_values`, and gave the
/// answers that `after` ends with.
pub open spec fn two_more(
    before: Seq<Exchange>,
    after: Seq<Exchange>,
    sql: Seq<char>,
    values: Seq<SqlValueView>,
    next_sql: Seq<char>,
    next_values: Seq<SqlValueView>,
) -> bool {
    after.len() == before.len() + 2 && after == before.push(
        asked(sql, values, after[before.len() as int].answer),
    ).push(asked(next_sql, next_values, after[before.len() as int + 1].answer))
}

/// What holds after a note was to be saved, with `now` as the current
/// time: `before` and `after` are the store's exchanges before and after,
/// and `r` is what the caller was told. A note whose identifier the store
/// does not take leads to no exchange. Else the engine is handed the
/// note's row, under the time that `filed_at` gives. Where it fails,
/// nothing follows and its failure is the caller's answer. Where it runs,
/// the engine is handed the note's entry in the search index; the call
/// succeeds if that runs too, and else tells that the index is behind.
pub open spec fn saved(
    before: Seq<Exchange>,
    note: NoteView,
    now: Seq<char>,
    r: Result<(), StoreError>,
    after: Seq<Exchange>,
) -> bool {
    match note_id_issue(note.id) {
        Some(issue) => r == Err::<(), StoreError>(StoreError::Validation(issue)) && after
            == before,
        None => {
            let row = note_row(note, filed_at(note.updated_at, now));
            let entry = index_row(note);
            let n = before.len() as int;
            after.len() > n && match after[n].answer {
                Answer::Failed(_) => one_more(before, after, UPSERT_NOTE@, row) && r is Err
                    && reports(r->Err_0, after[n].answer),
                Answer::Changed(_) => two_more(
                    before,
                    after,
                    UPSERT_NOTE@,
                    row,
                    UPSERT_NOTE_INDEX@,
                    entry,
                ) && match after[n + 1].answer {
                    Answer::Changed(_) => r is Ok,
                    Answer::Failed(_) => r is Err && reports_index(r->Err_0, after[n + 1].answer),
                    _ => false,
                },
                _ => false,
            }
        },
    }
}

/// What holds after the pin of the note `id` was to be toggled, with `now`
/// as the current time. An empty identifier leads to no exchange. Else the
/// engine is asked for the note. Where it fails, or has no such note,
/// nothing follows, and the caller is told of the failure, or `NotFound`.
/// Where it has one, the engine is handed the pin of the first row,
/// toggled; the caller gets that note if the engine runs the statement, and
/// the engine's failure if not.
pub open spec fn pin_toggled(
    before: Seq<Exchange>,
    id: Seq<char>,
    now: Seq<char>,
    r: Result<Note, StoreError>,
    after: Seq<Exchange>,
) -> bool {
    if id.len() == 0 {
        r == Err::<Note, StoreError>(StoreError::Validation(Invalid::EmptyNoteId)) && after
            == before
    } else {
        let n = before.len() as int;
        after.len() > n && match after[n].answer {
            Answer::Failed(_) => one_more(before, after, SELECT_NOTE@, single(id)) && r is Err
                && reports(r->Err_0, after[n].answer),
            Answer::Notes(rows) => if rows.len() == 0 {
                one_more(before, after, SELECT_NOTE@, single(id)) && r == Err::<
                    Note,
                    StoreError,
                >(StoreError::NotFound)
            } else {
                let note = toggled(rows[0], now);
                two_more(
                    before,
                    after,
                    SELECT_NOTE@,
                    single(id),
                    UPDATE_PIN@,
                    pin_row(note),
                ) && match after[n + 1].answer {
                    Answer::Changed(_) => r is Ok && r->Ok_0@ == note,
                    Answer::Failed(_) => r is Err && reports(r->Err_0, after[n + 1].answer),
                    _ => false,
                }
            },
            _ => false,
        }
    }
}

/// Two toggles of one note in a row give it back the pin it had, and leave
/// it with a pin time exactly while it is pinned. This holds where the
/// second toggle finds the note as the first left it, that is, where the
/// engine hands out what it was handed and nothing else has written to the
/// note in between.
pub proof fn lemma_two_toggles_restore_the_pin(
    start: Seq<Exchange>,
    id: Seq<char>,
    first_now: Seq<char>,
    first: Result<Note, StoreError>,
    between: Seq<Exchange>,
    second_now: Seq<char>,
    second: Result<Note, StoreError>,
    end: Seq<Exchange>,
)
    requires
        pin_toggled(start, id, first_now, first, between),
        pin_toggled(between, id, second_now, second, end),
        first is Ok,
        second is Ok,
        end[between.len() as int].answer is Notes,
        first_row(end[between.len() as int].answer->Notes_0) == Some(first->Ok_0@),
    ensures
        between[start.len() as int].answer is Notes,
        between[start.len() as int].answer->Notes_0.len() > 0,
        second->Ok_0@.is_pinned == between[start.len() as int].answer->Notes_0[0].is_pinned,
        second->Ok_0@ == (NoteView {
            pinned_at: second->Ok_0@.pinned_at,
            updated_at: second_now,
            ..between[start.len() as int].answer->Notes_0[0]
        }),
        first->Ok_0@.pin_consistent(),
        second->Ok_0@.pin_consistent(),
{
    let found = between[start.len() as int].answer->Notes_0[0];
    lemma_toggle_twice_restores_pin(found, first_now, second_now);
    lemma_toggled_is_pin_consistent(found, first_now);
    lemma_toggled_is_pin_consistent(first->Ok_0@, second_now);
}

/// The statements that create the tables, the search index and the
/// indexes, in the order in which they run.
pub open spec fn creation() -> Seq<Seq<char>> {
    seq![
        CREATE_NOTES@,
        CREATE_FOLDERS@,
        CREATE_NOTES_INDEX@,
        INDEX_NOTES_BY_FOLDER@,
        INDEX_NOTES_BY_UPDATE@,
        INDEX_NOTES_BY_PIN@,
    ]
}

/// The statements that add the columns of later versions.
pub open spec fn migrations() -> Seq<Seq<char>> {
    seq![ADD_PINNED_AT@, ADD_FONT@]
}

/// The statements that set the database up, in the order in which they
/// run: first those that create, then those that add columns.
pub open spec fn setup() -> Seq<Seq<char>> {
    creation() + migrations()
}

/// How many statements of the setup create; those after them add columns.
pub const CREATING: usize = 6;

/// Whether setting up goes on after the engine's answer to its statement
/// number `step`: it goes on where the statement ran, and where a
/// statement that adds a column failed because the column is there.
pub open spec fn goes_on(step: int, answer: Answer) -> bool {
    answer is Changed || (step >= CREATING && answer is Failed && column_is_there(
        said_by(answer->Failed_0),
    ))
}

/// What holds after the database was to be set up. The engine was handed
/// the statements of the setup in order, none with a value bound, up to
/// and including the first after whose answer setting up does not go on.
/// The call succeeds where there is no such statement, and else hands
/// back the engine's failure.
pub open spec fn set_up(
    before: Seq<Exchange>,
    r: Result<String, StoreError>,
    after: Seq<Exchange>,
) -> bool {
    let n = before.len() as int;
    &&& n < after.len() <= n + setup().len()
    &&& after.take(n) == before
    &&& forall|j: int|
        n <= j < after.len() ==> (#[trigger] after[j]).sql == setup()[j - n] && after[j].values
            == Seq::<SqlValueView>::empty()
    &&& forall|j: int| n <= j < after.len() - 1 ==> goes_on(j - n, (#[trigger] after[j]).answer)
    &&& match r {
        Ok(confirmation) => confirmation@ == "Database initialized"@ && after.len() == n
            + setup().len() && goes_on(after.len() - 1 - n, after.last().answer),
        Err(e) => !goes_on(after.len() - 1 - n, after.last().answer) && reports(
            e,
            after.last().answer,
        ),
    }
}

/// The texts of a list of statements.
pub open spec fn texts(statements: Seq<&'static str>) -> Seq<Seq<char>> {
    Seq::new(statements.len(), |i: int| statements[i]@)
}

fn setup_statements() -> (statements: Vec<&'static str>)
    ensures
        texts(statements@) == setup(),
        statements.len() == 8,
{
    let mut statements: Vec<&'static str> = Vec::new();
    statements.push(CREATE_NOTES);
    statements.push(CREATE_FOLDERS);
    statements.push(CREATE_NOTES_INDEX);
    statements.push(INDEX_NOTES_BY_FOLDER);
    statements.push(INDEX_NOTES_BY_UPDATE);
    statements.push(INDEX_NOTES_BY_PIN);
    statements.push(ADD_PINNED_AT);
    statements.push(ADD_FONT);
    assert(texts(statements@) =~= setup());
    statements
}

impl Store {
    /// The exchanges that the store has had with the engine since it was
    /// opened, oldest first.
    pub closed spec fn exchanges(&self) -> Seq<Exchange> {
        exchanges_of(self.conn)
    }

    /// The place that the store was opened on.
    pub closed spec fn place(&self) -> Seq<char> {
        place_of(self.conn)
    }

    /// The store on the connection that the engine handed out, or the
    /// engine's failure as a storage failure.
    fn on(answer: Result<rusqlite::Connection, rusqlite::Error>) -> (r: Result<Store, StoreError>)
        ensures
            answer is Ok ==> r is Ok && r->Ok_0.conn == answer->Ok_0,
            answer is Err ==> r is Err && r->Err_0 is Storage && words_of(
                &answer->Err_0,
                r->Err_0->Storage_0,
            ),
    {
        match surface(answer) {
            Ok(conn) => Ok(Store { conn }),
            Err(e) => Err(e),
        }
    }

    /// Opens the database file at `path`, creating it if it is missing.
    /// Whether that succeeds is the engine's to say. Where it does, the
    /// store stands on that place and has asked nothing yet; where it does
    /// not, the caller gets a storage failure with the engine's account.
    pub fn open(path: &str) -> (r: Result<Store, StoreError>)
        ensures
            r is Ok ==> r->Ok_0.place() == path@,
            r is Ok ==> r->Ok_0.exchanges().len() == 0,
            r is Err ==> r->Err_0 is Storage && engine_words(r->Err_0->Storage_0),
    {
        let answer = connect(path);
        let r = Store::on(answer);
        proof {
            if answer is Err {
                assert(words_of(&answer->Err_0, r->Err_0->Storage_0));
            }
        }
        r
    }

    /// Opens a database of its own in memory, gone when the handle goes.
    /// Whether that succeeds is the engine's to say. Where it does, the
    /// store stands on the engine's address for such a database and has
    /// asked nothing yet; where it does not, the caller gets a storage
    /// failure with the engine's account.
    pub fn open_in_memory() -> (r: Result<Store, StoreError>)
        ensures
            r is Ok ==> r->Ok_0.place() == ":memory:"@,
            r is Ok ==> r->Ok_0.exchanges().len() == 0,
            r is Err ==> r->Err_0 is Storage && engine_words(r->Err_0->Storage_0),
    {
        let answer = connect_in_memory();
        let r = Store::on(answer);
        proof {
            if answer is Err {
                assert(words_of(&answer->Err_0, r->Err_0->Storage_0));
            }
        }
        r
    }

    /// Sets the database up: creates the two tables, the search index and
    /// the three indexes where they are missing, then adds the columns of
    /// later versions. A statement that fails ends the setup and its
    /// failure is handed back, but for one: that a column could not be
    /// added because it is there already is passed over. See `set_up`.
    pub fn initialize(&mut self) -> (r: Result<String, StoreError>)
        ensures
            set_up(old(self).exchanges(), r, final(self).exchanges()),
            final(self).place() == old(self).place(),
    {
        let statements = setup_statements();
        let values = no_values();
        let ghost before = self.exchanges();
        let ghost n = before.len() as int;
        let mut i: usize = 0;
        proof {
            assert(self.exchanges().take(n) =~= before);
        }
        while i < statements.len()
            invariant
                i <= statements.len() == 8,
                texts(statements@) == setup(),
                value_views(values@) == Seq::<SqlValueView>::empty(),
                before == old(self).exchanges(),
                n == before.len(),
                self.place() == old(self).place(),
                self.exchanges().len() == n + i,
                self.exchanges().take(n) == before,
                forall|j: int|
                    n <= j < n + i ==> (#[trigger] self.exchanges()[j]).sql == setup()[j - n]
                        && self.exchanges()[j].values == Seq::<SqlValueView>::empty() && goes_on(
                        j - n,
                        self.exchanges()[j].answer,
                    ),
            decreases statements.len() - i,
        {
            let ghost so_far = self.exchanges();
            let answer = execute(&mut self.conn, statements[i], &values);
            proof {
                assert(statements[i as int]@ == texts(statements@)[i as int]);
                assert(self.exchanges().take(n) =~= so_far.take(n));
                assert forall|j: int| n <= j < n + i implies self.exchanges()[j] == so_far[j] by {}
            }
            match answer {
                Ok(_) => {},
                Err(failure) => {
                    let tolerated = i >= CREATING && passed_over(&failure);
                    if !tolerated {
                        return Err(storage_failure(&failure));
                    }
                },
            }
            i += 1;
        }
        Ok(String::from_str("Database initialized"))
    }

    /// Saves a note with `now` as the current time: inserts its row, or
    /// overwrites every field but the time of creation of the row that has
    /// its identifier, then writes its entry in the search index in place
    /// of the one that is there. See `saved`.
    pub fn save_note_at(&mut self, note: Note, now: &str) -> (r: Result<(), StoreError>)
        ensures
            saved(old(self).exchanges(), note@, now@, r, final(self).exchanges()),
            final(self).place() == old(self).place(),
    {
        match check_note_id(note.id.as_str()) {
            Some(issue) => {
                return Err(StoreError::Validation(issue));
            },
            None => {},
        }
        let updated_at = file_time(note.updated_at.as_str(), now);
        let row = note_values(&note, updated_at.as_str());
        match written(execute(&mut self.conn, UPSERT_NOTE, &row)) {
            Ok(_) => {},
            Err(e) => {
                return Err(e);
            },
        }
        let entry = index_values(&note);
        indexed(execute(&mut self.conn, UPSERT_NOTE_INDEX, &entry))
    }

    /// Saves a note. The identifier is looked at first. A note that brings
    /// no time of its last change is filed under the time of the call,
    /// which is read only then. See `saved`.
    pub fn save_note(&mut self, note: Note) -> (r: Result<(), StoreError>)
        ensures
            exists|now: Seq<char>|
                now.len() > 0 && #[trigger] saved(
                    old(self).exchanges(),
                    note@,
                    now,
                    r,
                    final(self).exchanges(),
                ),
            final(self).place() == old(self).place(),
    {
        let ghost any = seq!['T'];
        match check_note_id(note.id.as_str()) {
            Some(issue) => {
                let r = Err(StoreError::Validation(issue));
                assert(saved(old(self).exchanges(), note@, any, r, self.exchanges()));
                return r;
            },
            None => {},
        }
        if note.updated_at.as_str().is_empty() {
            let now = now_rfc3339();
            self.save_note_at(note, now.as_str())
        } else {
            let r = self.save_note_at(note, "");
            proof {
                assert(filed_at(note.updated_at@, any) == filed_at(note.updated_at@, ""@));
                assert(saved(old(self).exchanges(), note@, any, r, self.exchanges()));
            }
            r
        }
    }

    /// All notes, as the engine hands them out for `SELECT_ALL_NOTES`:
    /// asked for with the pinned ones first, the one pinned last at their
    /// head, then the others, the one changed last at their head.
    pub fn get_all_notes(&mut self) -> (r: Result<Vec<Note>, StoreError>)
        ensures
            one_more(
                old(self).exchanges(),
                final(self).exchanges(),
                SELECT_ALL_NOTES@,
                Seq::<SqlValueView>::empty(),
            ),
            match final(self).exchanges().last().answer {
                Answer::Notes(rows) => r is Ok && note_views(r->Ok_0@) == rows,
                Answer::Failed(_) => r is Err && reports(
                    r->Err_0,
                    final(self).exchanges().last().answer,
                ),
                _ => false,
            },
            final(self).place() == old(self).place(),
    {
        let values = no_values();
        surface(query_notes(&mut self.conn, SELECT_ALL_NOTES, &values))
    }

    /// The note with the given identifier, or `None` where the engine has
    /// none: the first of the rows that it hands out for `SELECT_NOTE`.
    pub fn get_note(&mut self, id: &str) -> (r: Result<Option<Note>, StoreError>)
        ensures
            id@.len() == 0 ==> r == Err::<Option<Note>, StoreError>(
                StoreError::Validation(Invalid::EmptyNoteId),
            ) && final(self).exchanges() == old(self).exchanges(),
            id@.len() > 0 ==> one_more(
                old(self).exchanges(),
                final(self).exchanges(),
                SELECT_NOTE@,
                single(id@),
            ) && match final(self).exchanges().last().answer {
                Answer::Notes(rows) => match r {
                    Ok(Some(note)) => first_row(rows) == Some(note@),
                    Ok(None) => first_row(rows) is None,
                    Err(_) => false,
                },
                Answer::Failed(_) => r is Err && reports(
                    r->Err_0,
                    final(self).exchanges().last().answer,
                ),
                _ => false,
            },
            final(self).place() == old(self).place(),
    {
        if id.is_empty() {
            return Err(StoreError::Validation(Invalid::EmptyNoteId));
        }
        let key = single_value(id);
        match surface(query_notes(&mut self.conn, SELECT_NOTE, &key)) {
            Ok(rows) => {
                assert(rows.len() > 0 ==> note_views(rows@)[0] == rows[0]@);
                Ok(first_note(rows))
            },
            Err(e) => Err(e),
        }
    }

    /// Deletes the note with the given identifier, and then its entry in
    /// the search index, and hands back how many rows of notes went. That
    /// no such note exists is no failure: the answer is then `Ok(0)`, never
    /// `NotFound`. Nor is it a failure that the entry could not be removed:
    /// the engine is asked, and its answer is not looked at.
    pub fn delete_note(&mut self, id: &str) -> (r: Result<usize, StoreError>)
        ensures
            id@.len() == 0 ==> r == Err::<usize, StoreError>(
                StoreError::Validation(Invalid::EmptyNoteId),
            ) && final(self).exchanges() == old(self).exchanges(),
            id@.len() > 0 ==> final(self).exchanges().len() > old(self).exchanges().len()
                && match final(self).exchanges()[old(self).exchanges().len() as int].answer {
                Answer::Failed(_) => one_more(
                    old(self).exchanges(),
                    final(self).exchanges(),
                    DELETE_NOTE@,
                    single(id@),
                ) && r is Err && reports(r->Err_0, final(self).exchanges().last().answer),
                Answer::Changed(rows) => two_more(
                    old(self).exchanges(),
                    final(self).exchanges(),
                    DELETE_NOTE@,
                    single(id@),
                    DELETE_NOTE_INDEX@,
                    single(id@),
                ) && r is Ok && r->Ok_0 == rows,
                _ => false,
            },
            r is Err ==> !(r->Err_0 is NotFound),
            final(self).place() == old(self).place(),
    {
        if id.is_empty() {
            return Err(StoreError::Validation(Invalid::EmptyNoteId));
        }
        let key = single_value(id);
        let rows = match surface(execute(&mut self.conn, DELETE_NOTE, &key)) {
            Ok(rows) => rows,
            Err(e) => {
                return Err(e);
            },
        };
        let _ = execute(&mut self.conn, DELETE_NOTE_INDEX, &key);
        Ok(rows)
    }

    /// Asks the engine for the note with the given identifier.
    fn look_up(&mut self, id: &str) -> (r: Result<Note, StoreError>)
        ensures
            one_more(
                old(self).exchanges(),
                final(self).exchanges(),
                SELECT_NOTE@,
                single(id@),
            ),
            match final(self).exchanges().last().answer {
                Answer::Notes(rows) => if rows.len() == 0 {
                    r == Err::<Note, StoreError>(StoreError::NotFound)
                } else {
                    r is Ok && r->Ok_0@ == rows[0]
                },
                Answer::Failed(_) => r is Err && reports(
                    r->Err_0,
                    final(self).exchanges().last().answer,
                ),
                _ => false,
            },
            final(self).place() == old(self).place(),
    {
        let key = single_value(id);
        match surface(query_notes(&mut self.conn, SELECT_NOTE, &key)) {
            Ok(rows) => {
                assert(rows.len() > 0 ==> note_views(rows@)[0] == rows[0]@);
                found(rows)
            },
            Err(e) => Err(e),
        }
    }

    /// Hands the engine the pin of the note, and the note back to the
    /// caller where the engine took it.
    fn write_pin(&mut self, note: Note) -> (r: Result<Note, StoreError>)
        ensures
            one_more(
                old(self).exchanges(),
                final(self).exchanges(),
                UPDATE_PIN@,
                pin_row(note@),
            ),
            match final(self).exchanges().last().answer {
                Answer::Changed(_) => r == Ok::<Note, StoreError>(note),
                Answer::Failed(_) => r is Err && reports(
                    r->Err_0,
                    final(self).exchanges().last().answer,
                ),
                _ => false,
            },
            final(self).place() == old(self).place(),
    {
        let values = pin_values(&note);
        match written(execute(&mut self.conn, UPDATE_PIN, &values)) {
            Ok(_) => Ok(note),
            Err(e) => Err(e),
        }
    }

    /// Toggles the pin of the note with the given identifier, with `now`
    /// as the current time, and hands back the note as it is then. The
    /// note is read and written while the store is held, so nothing that
    /// goes through this store can come between the two. See
    /// `pin_toggled`.
    pub fn toggle_pin_at(&mut self, id: &str, now: &str) -> (r: Result<Note, StoreError>)
        ensures
            pin_toggled(old(self).exchanges(), id@, now@, r, final(self).exchanges()),
            r is Ok ==> r->Ok_0@.pin_consistent(),
            final(self).place() == old(self).place(),
    {
        if id.is_empty() {
            return Err(StoreError::Validation(Invalid::EmptyNoteId));
        }
        let current = match self.look_up(id) {
            Ok(note) => note,
            Err(e) => {
                return Err(e);
            },
        };
        self.write_pin(toggle(current, now))
    }

    /// Toggles the pin of the note with the given identifier at the time
    /// of the call, which is read once the note has been found. See
    /// `pin_toggled`.
    pub fn toggle_pin(&mut self, id: &str) -> (r: Result<Note, StoreError>)
        ensures
            exists|now: Seq<char>|
                now.len() > 0 && #[trigger] pin_toggled(
                    old(self).exchanges(),
                    id@,
                    now,
                    r,
                    final(self).exchanges(),
                ),
            r is Ok ==> r->Ok_0@.pin_consistent(),
            final(self).place() == old(self).place(),
    {
        let ghost any = seq!['T'];
        if id.is_empty() {
            let r = Err(StoreError::Validation(Invalid::EmptyNoteId));
            assert(pin_toggled(old(self).exchanges(), id@, any, r, self.exchanges()));
            return r;
        }
        let current = match self.look_up(id) {
            Ok(note) => note,
            Err(e) => {
                let r = Err(e);
                assert(pin_toggled(old(self).exchanges(), id@, any, r, self.exchanges()));
                return r;
            },
        };
        let now = now_rfc3339();
        let r = self.write_pin(toggle(current, now.as_str()));
        assert(pin_toggled(old(self).exchanges(), id@, now@, r, self.exchanges()));
        r
    }

    /// Saves a folder: inserts its row, or gives the row that has its
    /// identifier the new name.
    pub fn save_folder(&mut self, folder: Folder) -> (r: Result<(), StoreError>)
        ensures
            folder.id@.len() == 0 ==> r == Err::<(), StoreError>(
                StoreError::Validation(Invalid::EmptyFolderId),
            ) && final(self).exchanges() == old(self).exchanges(),
            folder.id@.len() > 0 ==> one_more(
                old(self).exchanges(),
                final(self).exchanges(),
                UPSERT_FOLDER@,
                folder_row(folder@),
            ) && match final(self).exchanges().last().answer {
                Answer::Changed(_) => r is Ok,
                Answer::Failed(_) => r is Err && reports(
                    r->Err_0,
                    final(self).exchanges().last().answer,
                ),
                _ => false,
            },
            final(self).place() == old(self).place(),
    {
        if folder.id.as_str().is_empty() {
            return Err(StoreError::Validation(Invalid::EmptyFolderId));
        }
        let row = folder_values(&folder);
        written(execute(&mut self.conn, UPSERT_FOLDER, &row))
    }

    /// All folders, as the engine hands them out for `SELECT_ALL_FOLDERS`:
    /// asked for with the one created last at their head.
    pub fn get_all_folders(&mut self) -> (r: Result<Vec<Folder>, StoreError>)
        ensures
            one_more(
                old(self).exchanges(),
                final(self).exchanges(),
                SELECT_ALL_FOLDERS@,
                Seq::<SqlValueView>::empty(),
            ),
            match final(self).exchanges().last().answer {
                Answer::Folders(rows) => r is Ok && folder_views(r->Ok_0@) == rows,
                Answer::Failed(_) => r is Err && reports(
                    r->Err_0,
                    final(self).exchanges().last().answer,
                ),
                _ => false,
            },
            final(self).place() == old(self).place(),
    {
        let values = no_values();
        surface(query_folders(&mut self.conn, SELECT_ALL_FOLDERS, &values))
    }

    /// Deletes the folder with the given identifier: first the engine is
    /// told to unfile every note that is filed under it, then to delete
    /// the folder's row. No note is deleted. Where the first step fails the
    /// second is not tried. That no such folder exists is no failure: the
    /// answer is never `NotFound`.
    pub fn delete_folder(&mut self, id: &str) -> (r: Result<(), StoreError>)
        ensures
            id@.len() == 0 ==> r == Err::<(), StoreError>(
                StoreError::Validation(Invalid::EmptyFolderId),
            ) && final(self).exchanges() == old(self).exchanges(),
            id@.len() > 0 ==> final(self).exchanges().len() > old(self).exchanges().len()
                && match final(self).exchanges()[old(self).exchanges().len() as int].answer {
                Answer::Failed(_) => one_more(
                    old(self).exchanges(),
                    final(self).exchanges(),
                    UNFILE_NOTES@,
                    single(id@),
                ) && r is Err && reports(r->Err_0, final(self).exchanges().last().answer),
                Answer::Changed(_) => two_more(
                    old(self).exchanges(),
                    final(self).exchanges(),
                    UNFILE_NOTES@,
                    single(id@),
                    DELETE_FOLDER@,
                    single(id@),
                ) && match final(self).exchanges().last().answer {
                    Answer::Changed(_) => r is Ok,
                    Answer::Failed(_) => r is Err && reports(
                        r->Err_0,
                        final(self).exchanges().last().answer,
                    ),
                    _ => false,
                },
                _ => false,
            },
            r is Err ==> !(r->Err_0 is NotFound),
            final(self).place() == old(self).place(),
    {
        if id.is_empty() {
            return Err(StoreError::Validation(Invalid::EmptyFolderId));
        }
        let key = single_value(id);
        match written(execute(&mut self.conn, UNFILE_NOTES, &key)) {
            Ok(_) => {},
            Err(e) => {
                return Err(e);
            },
        }
        written(execute(&mut self.conn, DELETE_FOLDER, &key))
    }

    /// The notes that match a free text, best match first, fifty at most.
    /// The text is sanitized first; where nothing is left of it, as for a
    /// text of white space only, the answer is empty and the engine is not
    /// asked. Else the engine is handed the sanitized text with
    /// `SEARCH_NOTES`, and the caller gets the first fifty of its rows.
    pub fn search_notes(&mut self, query: &str) -> (r: Result<Vec<Note>, StoreError>)
        ensures
            sanitized(query@).len() == 0 ==> r is Ok && r->Ok_0@.len() == 0,
            sanitized(query@).len() == 0 ==> final(self).exchanges() == old(self).exchanges(),
            sanitized(query@).len() > 0 ==> one_more(
                old(self).exchanges(),
                final(self).exchanges(),
                SEARCH_NOTES@,
                single(sanitized(query@)),
            ) && match final(self).exchanges().last().answer {
                Answer::Notes(rows) => r is Ok && note_views(r->Ok_0@) == capped(rows),
                Answer::Failed(_) => r is Err && reports(
                    r->Err_0,
                    final(self).exchanges().last().answer,
                ),
                _ => false,
            },
            r is Ok ==> r->Ok_0@.len() <= MAX_RESULTS,
            final(self).place() == old(self).place(),
    {
        if is_blank(query) {
            proof {
                lemma_blank_sanitizes_to_nothing(query@);
            }
            return Ok(Vec::new());
        }
        let phrase = sanitize_fts_query(query);
        if phrase.as_str().is_empty() {
            return Ok(Vec::new());
        }
        let values = single_value(phrase.as_str());
        match surface(query_notes(&mut self.conn, SEARCH_NOTES, &values)) {
            Ok(rows) => Ok(cap_results(rows)),
            Err(e) => Err(e),
        }
    }
}

} // verus!

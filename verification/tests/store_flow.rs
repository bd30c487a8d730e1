use webnotes::error::{Invalid, StoreError};
use webnotes::model::{Folder, Note};
use webnotes::store::Store;

fn note(id: &str, title: &str, content: &str) -> Note {
    Note {
        id: id.to_string(),
        title: title.to_string(),
        content: content.to_string(),
        folder_id: None,
        is_pinned: false,
        pinned_at: None,
        font: None,
        updated_at: "2024-01-01T00:00:00+00:00".to_string(),
        created_at: "2024-01-01T00:00:00+00:00".to_string(),
    }
}

fn note_changed_at(id: &str, updated_at: &str) -> Note {
    let mut n = note(id, id, "");
    n.updated_at = updated_at.to_string();
    n
}

fn folder(id: &str, name: &str, created_at: &str) -> Folder {
    Folder { id: id.to_string(), name: name.to_string(), created_at: created_at.to_string() }
}

fn ready() -> Store {
    let mut store = Store::open_in_memory().unwrap();
    assert_eq!(store.initialize().unwrap(), "Database initialized");
    store
}

fn ids(notes: &[Note]) -> Vec<String> {
    notes.iter().map(|n| n.id.clone()).collect()
}

#[test]
fn initialize_can_be_repeated() {
    let mut store = ready();
    assert_eq!(store.initialize().unwrap(), "Database initialized");
    store.save_note(note("a", "t", "c")).unwrap();
    store.save_folder(folder("f", "Work", "2024-01-01T00:00:00+00:00")).unwrap();
    assert_eq!(store.initialize().unwrap(), "Database initialized");
    assert_eq!(store.get_all_notes().unwrap().len(), 1);
    assert_eq!(store.get_all_folders().unwrap().len(), 1);
    assert_eq!(store.search_notes("t").unwrap().len(), 1);
}

#[test]
fn a_fresh_store_is_empty() {
    let mut store = ready();
    assert_eq!(store.get_all_notes().unwrap(), vec![]);
    assert_eq!(store.get_all_folders().unwrap(), vec![]);
}

#[test]
fn operations_before_initialize_report_storage_failure() {
    let mut store = Store::open_in_memory().unwrap();
    let read = store.get_all_notes().unwrap_err();
    assert!(matches!(read, StoreError::Storage(_)));
    assert!(read.message().starts_with("Database error: "));
    assert!(matches!(store.get_all_folders(), Err(StoreError::Storage(_))));
    assert!(matches!(store.get_note("a"), Err(StoreError::Storage(_))));
    assert!(matches!(store.save_note(note("a", "", "")), Err(StoreError::Storage(_))));
    assert!(matches!(store.delete_note("a"), Err(StoreError::Storage(_))));
    assert!(matches!(store.toggle_pin("a"), Err(StoreError::Storage(_))));
    assert!(matches!(
        store.save_folder(folder("f", "n", "c")),
        Err(StoreError::Storage(_))
    ));
    assert!(matches!(store.delete_folder("f"), Err(StoreError::Storage(_))));
    assert!(matches!(store.search_notes("milk"), Err(StoreError::Storage(_))));
}

#[test]
fn open_fails_where_the_directory_is_missing() {
    let r = Store::open("/nonexistent-directory-for-webnotes/sub/notes.db");
    assert!(matches!(r, Err(StoreError::Storage(_))));
}

#[test]
fn open_gives_a_store_that_works() {
    let mut store = Store::open("file:webnotes_open_test?mode=memory&cache=shared").unwrap();
    store.initialize().unwrap();
    store.save_note(note("a", "t", "c")).unwrap();
    assert_eq!(ids(&store.get_all_notes().unwrap()), vec!["a"]);
}

#[test]
fn save_then_get_returns_the_note() {
    let mut store = ready();
    let mut n = note("n1", "Title", "Body");
    n.folder_id = Some("f1".to_string());
    n.font = Some("mono".to_string());
    n.is_pinned = true;
    n.pinned_at = Some("2024-02-02T00:00:00+00:00".to_string());
    store.save_note(n.clone()).unwrap();
    let got = store.get_note("n1").unwrap().unwrap();
    assert_eq!(got, n);
}

#[test]
fn save_keeps_the_time_that_the_note_brings() {
    let mut store = ready();
    store.save_note(note_changed_at("a", "1999-12-31T23:59:59+00:00")).unwrap();
    assert_eq!(store.get_note("a").unwrap().unwrap().updated_at, "1999-12-31T23:59:59+00:00");
}

#[test]
fn save_without_a_time_files_the_note_under_the_clock() {
    let mut store = ready();
    let before = chrono::Utc::now();
    let sent = note_changed_at("a", "");
    store.save_note(sent.clone()).unwrap();
    let got = store.get_note("a").unwrap().unwrap();
    assert!(!got.updated_at.is_empty());
    let filed = chrono::DateTime::parse_from_rfc3339(&got.updated_at).unwrap();
    assert!(filed >= before);
    assert!(filed <= chrono::Utc::now());
    assert_eq!(filed.offset().local_minus_utc(), 0);
    let mut expected = sent;
    expected.updated_at = got.updated_at.clone();
    assert_eq!(got, expected);
}

#[test]
fn save_at_uses_the_given_time_only_where_the_note_brings_none() {
    let mut store = ready();
    store.save_note_at(note_changed_at("a", ""), "2025-05-05T05:05:05+00:00").unwrap();
    store
        .save_note_at(note_changed_at("b", "2020-02-02T02:02:02+00:00"), "2025-05-05T05:05:05+00:00")
        .unwrap();
    assert_eq!(store.get_note("a").unwrap().unwrap().updated_at, "2025-05-05T05:05:05+00:00");
    assert_eq!(store.get_note("b").unwrap().unwrap().updated_at, "2020-02-02T02:02:02+00:00");
}

#[test]
fn save_overwrites_every_field_but_created_at() {
    let mut store = ready();
    store.save_note(note("n1", "Old", "old body")).unwrap();
    let mut n = note("n1", "New", "new body");
    n.created_at = "2030-01-01T00:00:00+00:00".to_string();
    n.updated_at = "2024-03-03T00:00:00+00:00".to_string();
    n.font = Some("serif".to_string());
    n.folder_id = Some("f".to_string());
    n.is_pinned = true;
    n.pinned_at = Some("2024-03-03T00:00:00+00:00".to_string());
    store.save_note(n).unwrap();
    let got = store.get_note("n1").unwrap().unwrap();
    assert_eq!(got.title, "New");
    assert_eq!(got.content, "new body");
    assert_eq!(got.font, Some("serif".to_string()));
    assert_eq!(got.folder_id, Some("f".to_string()));
    assert!(got.is_pinned);
    assert_eq!(got.pinned_at, Some("2024-03-03T00:00:00+00:00".to_string()));
    assert_eq!(got.updated_at, "2024-03-03T00:00:00+00:00");
    assert_eq!(got.created_at, "2024-01-01T00:00:00+00:00");
    assert_eq!(store.get_all_notes().unwrap().len(), 1);
}

#[test]
fn save_keeps_the_search_index_in_step() {
    let mut store = ready();
    store.save_note(note("n1", "Old", "ancient body")).unwrap();
    assert_eq!(ids(&store.search_notes("ancient").unwrap()), vec!["n1"]);
    store.save_note(note("n1", "New", "modern body")).unwrap();
    assert_eq!(store.search_notes("ancient").unwrap().len(), 0);
    assert_eq!(store.search_notes("old").unwrap().len(), 0);
    assert_eq!(ids(&store.search_notes("modern").unwrap()), vec!["n1"]);
    assert_eq!(ids(&store.search_notes("new").unwrap()), vec!["n1"]);
    assert_eq!(ids(&store.search_notes("body").unwrap()), vec!["n1"]);
}

#[test]
fn save_with_empty_id_is_a_validation_error() {
    let mut store = ready();
    let r = store.save_note(note("", "t", "c"));
    assert_eq!(r, Err(StoreError::Validation(Invalid::EmptyNoteId)));
    assert_eq!(r.unwrap_err().message(), "Note ID cannot be empty");
    assert_eq!(store.get_all_notes().unwrap().len(), 0);
    assert_eq!(store.search_notes("t").unwrap().len(), 0);
}

#[test]
fn save_takes_an_id_of_a_hundred_characters_and_no_more() {
    let mut store = ready();
    let hundred = "x".repeat(100);
    let more = "x".repeat(101);
    assert_eq!(store.save_note(note(&hundred, "t", "c")), Ok(()));
    let r = store.save_note(note(&more, "t", "c"));
    assert_eq!(r, Err(StoreError::Validation(Invalid::NoteIdTooLong)));
    assert_eq!(r.unwrap_err().message(), "Note ID too long");
    assert_eq!(ids(&store.get_all_notes().unwrap()), vec![hundred.clone()]);
    assert!(store.get_note(&hundred).unwrap().is_some());
}

#[test]
fn the_length_of_an_id_is_counted_in_characters() {
    let mut store = ready();
    let hundred = "é".repeat(100);
    let more = "é".repeat(101);
    assert_eq!(hundred.len(), 200);
    assert_eq!(store.save_note(note(&hundred, "t", "c")), Ok(()));
    assert_eq!(
        store.save_note(note(&more, "t", "c")),
        Err(StoreError::Validation(Invalid::NoteIdTooLong))
    );
    assert_eq!(store.get_note(&hundred).unwrap().unwrap().id, hundred);
}

#[test]
fn get_note_of_an_unknown_id_is_none() {
    let mut store = ready();
    store.save_note(note("a", "t", "c")).unwrap();
    assert_eq!(store.get_note("b"), Ok(None));
}

#[test]
fn get_note_with_empty_id_is_a_validation_error() {
    let mut store = ready();
    assert_eq!(store.get_note(""), Err(StoreError::Validation(Invalid::EmptyNoteId)));
}

#[test]
fn delete_note_removes_the_row_and_the_index_entry() {
    let mut store = ready();
    store.save_note(note("a", "Shopping", "milk")).unwrap();
    store.save_note(note("b", "Other", "milk too")).unwrap();
    assert_eq!(store.delete_note("a"), Ok(1));
    assert_eq!(store.get_note("a"), Ok(None));
    assert_eq!(ids(&store.get_all_notes().unwrap()), vec!["b"]);
    assert_eq!(ids(&store.search_notes("milk").unwrap()), vec!["b"]);
    assert_eq!(store.search_notes("shopping").unwrap().len(), 0);
}

#[test]
fn delete_note_of_an_unknown_id_succeeds() {
    let mut store = ready();
    store.save_note(note("a", "t", "c")).unwrap();
    assert_eq!(store.delete_note("nonexistent"), Ok(0));
    assert_eq!(store.delete_note("nonexistent"), Ok(0));
    assert_eq!(store.delete_note("a"), Ok(1));
    assert_eq!(store.delete_note("a"), Ok(0));
    store.save_note(note("a", "t", "c")).unwrap();
    assert_eq!(ids(&store.get_all_notes().unwrap()), vec!["a"]);
}

#[test]
fn delete_note_with_empty_id_is_a_validation_error() {
    let mut store = ready();
    assert_eq!(store.delete_note(""), Err(StoreError::Validation(Invalid::EmptyNoteId)));
}

#[test]
fn toggle_pin_pins_and_unpins() {
    let mut store = ready();
    let n = note("a", "t", "c");
    store.save_note(n.clone()).unwrap();

    let pinned = store.toggle_pin_at("a", "2025-01-01T00:00:00+00:00").unwrap();
    let mut expected = n.clone();
    expected.is_pinned = true;
    expected.pinned_at = Some("2025-01-01T00:00:00+00:00".to_string());
    expected.updated_at = "2025-01-01T00:00:00+00:00".to_string();
    assert_eq!(pinned, expected);
    assert_eq!(store.get_note("a").unwrap().unwrap(), expected);

    let unpinned = store.toggle_pin_at("a", "2025-01-02T00:00:00+00:00").unwrap();
    let mut expected = n;
    expected.is_pinned = false;
    expected.pinned_at = None;
    expected.updated_at = "2025-01-02T00:00:00+00:00".to_string();
    assert_eq!(unpinned, expected);
    assert_eq!(store.get_note("a").unwrap().unwrap(), expected);
}

#[test]
fn toggle_pin_twice_restores_the_pin() {
    let mut store = ready();
    store.save_note(note("a", "t", "c")).unwrap();
    let mut was_pinned = note("b", "t", "c");
    was_pinned.is_pinned = true;
    was_pinned.pinned_at = Some("2024-01-01T00:00:00+00:00".to_string());
    store.save_note(was_pinned).unwrap();

    for (id, pinned_before) in [("a", false), ("b", true)] {
        let first = store.toggle_pin(id).unwrap();
        assert_eq!(first.is_pinned, !pinned_before);
        assert_eq!(first.pinned_at.is_none(), !first.is_pinned);
        let second = store.toggle_pin(id).unwrap();
        assert_eq!(second.is_pinned, pinned_before);
        assert_eq!(second.pinned_at.is_none(), !second.is_pinned);
        let stored = store.get_note(id).unwrap().unwrap();
        assert_eq!(stored, second);
    }
}

#[test]
fn toggle_pin_stamps_the_note_with_the_clock() {
    let mut store = ready();
    store.save_note(note("a", "t", "c")).unwrap();
    let before = chrono::Utc::now();
    let pinned = store.toggle_pin("a").unwrap();
    let changed = chrono::DateTime::parse_from_rfc3339(&pinned.updated_at).unwrap();
    assert!(changed >= before);
    assert_eq!(pinned.pinned_at, Some(pinned.updated_at.clone()));
}

#[test]
fn toggle_pin_of_an_unknown_id_is_not_found() {
    let mut store = ready();
    store.save_note(note("a", "t", "c")).unwrap();
    let r = store.toggle_pin("nonexistent");
    assert_eq!(r, Err(StoreError::NotFound));
    assert_eq!(r.unwrap_err().message(), "Database error: Query returned no rows");
    assert!(!store.get_note("a").unwrap().unwrap().is_pinned);
}

#[test]
fn toggle_pin_with_empty_id_is_a_validation_error() {
    let mut store = ready();
    assert_eq!(store.toggle_pin(""), Err(StoreError::Validation(Invalid::EmptyNoteId)));
}

#[test]
fn the_pinned_note_comes_first() {
    let mut store = ready();
    store.save_note(note_changed_at("first", "2024-06-01T00:00:00+00:00")).unwrap();
    store.save_note(note_changed_at("second", "2024-01-01T00:00:00+00:00")).unwrap();
    assert_eq!(ids(&store.get_all_notes().unwrap()), vec!["first", "second"]);
    store.toggle_pin("second").unwrap();
    let all = store.get_all_notes().unwrap();
    assert_eq!(ids(&all), vec!["second", "first"]);
    assert!(all[0].is_pinned);
}

#[test]
fn notes_are_ordered_by_pin_then_pin_time_then_change_time() {
    let mut store = ready();
    store.save_note(note_changed_at("old", "2024-01-01T00:00:00+00:00")).unwrap();
    store.save_note(note_changed_at("new", "2024-09-01T00:00:00+00:00")).unwrap();
    store.save_note(note_changed_at("mid", "2024-05-01T00:00:00+00:00")).unwrap();
    store.save_note(note_changed_at("pin_a", "2024-02-01T00:00:00+00:00")).unwrap();
    store.save_note(note_changed_at("pin_b", "2024-03-01T00:00:00+00:00")).unwrap();
    store.toggle_pin_at("pin_a", "2025-01-01T00:00:00+00:00").unwrap();
    store.toggle_pin_at("pin_b", "2025-01-02T00:00:00+00:00").unwrap();
    assert_eq!(ids(&store.get_all_notes().unwrap()), vec!["pin_b", "pin_a", "new", "mid", "old"]);
    store.toggle_pin_at("pin_b", "2025-01-03T00:00:00+00:00").unwrap();
    assert_eq!(ids(&store.get_all_notes().unwrap()), vec!["pin_a", "pin_b", "new", "mid", "old"]);
}

#[test]
fn save_folder_then_get_all_folders() {
    let mut store = ready();
    let f = folder("f1", "Work", "2024-01-01T00:00:00+00:00");
    assert_eq!(store.save_folder(f.clone()), Ok(()));
    assert_eq!(store.get_all_folders().unwrap(), vec![f]);
}

#[test]
fn save_folder_overwrites_the_name_only() {
    let mut store = ready();
    store.save_folder(folder("f1", "Work", "2024-01-01T00:00:00+00:00")).unwrap();
    store.save_folder(folder("f1", "Play", "2030-01-01T00:00:00+00:00")).unwrap();
    assert_eq!(
        store.get_all_folders().unwrap(),
        vec![folder("f1", "Play", "2024-01-01T00:00:00+00:00")]
    );
}

#[test]
fn folders_come_newest_first() {
    let mut store = ready();
    store.save_folder(folder("a", "A", "2024-01-01T00:00:00+00:00")).unwrap();
    store.save_folder(folder("c", "C", "2024-03-01T00:00:00+00:00")).unwrap();
    store.save_folder(folder("b", "B", "2024-02-01T00:00:00+00:00")).unwrap();
    let all: Vec<String> = store.get_all_folders().unwrap().into_iter().map(|f| f.id).collect();
    assert_eq!(all, vec!["c", "b", "a"]);
}

#[test]
fn save_folder_with_empty_id_is_a_validation_error() {
    let mut store = ready();
    let r = store.save_folder(folder("", "Work", "2024-01-01T00:00:00+00:00"));
    assert_eq!(r, Err(StoreError::Validation(Invalid::EmptyFolderId)));
    assert_eq!(r.unwrap_err().message(), "Folder ID cannot be empty");
    assert_eq!(store.get_all_folders().unwrap().len(), 0);
}

#[test]
fn a_folder_id_may_be_longer_than_a_hundred_characters() {
    let mut store = ready();
    let long = "f".repeat(150);
    assert_eq!(store.save_folder(folder(&long, "Work", "c")), Ok(()));
    assert_eq!(store.get_all_folders().unwrap()[0].id, long);
}

#[test]
fn delete_folder_unfiles_its_notes() {
    let mut store = ready();
    store.save_folder(folder("f", "Work", "2024-01-01T00:00:00+00:00")).unwrap();
    store.save_folder(folder("g", "Play", "2024-01-02T00:00:00+00:00")).unwrap();
    let mut n1 = note("n1", "one", "");
    n1.folder_id = Some("f".to_string());
    let mut n2 = note("n2", "two", "");
    n2.folder_id = Some("f".to_string());
    let mut n3 = note("n3", "three", "");
    n3.folder_id = Some("g".to_string());
    store.save_note(n1.clone()).unwrap();
    store.save_note(n2.clone()).unwrap();
    store.save_note(n3.clone()).unwrap();

    assert_eq!(store.delete_folder("f"), Ok(()));

    n1.folder_id = None;
    n2.folder_id = None;
    assert_eq!(store.get_note("n1").unwrap().unwrap(), n1);
    assert_eq!(store.get_note("n2").unwrap().unwrap(), n2);
    assert_eq!(store.get_note("n3").unwrap().unwrap(), n3);
    assert_eq!(store.get_all_notes().unwrap().len(), 3);
    let left: Vec<String> = store.get_all_folders().unwrap().into_iter().map(|f| f.id).collect();
    assert_eq!(left, vec!["g"]);
}

#[test]
fn delete_folder_of_an_unknown_id_succeeds() {
    let mut store = ready();
    store.save_folder(folder("f", "Work", "2024-01-01T00:00:00+00:00")).unwrap();
    assert_eq!(store.delete_folder("nonexistent"), Ok(()));
    assert_eq!(store.get_all_folders().unwrap().len(), 1);
}

#[test]
fn delete_folder_with_empty_id_is_a_validation_error() {
    let mut store = ready();
    assert_eq!(store.delete_folder(""), Err(StoreError::Validation(Invalid::EmptyFolderId)));
}

#[test]
fn a_failed_index_write_leaves_the_note_saved() {
    let place = "file:webnotes_index_sync_test?mode=memory&cache=shared";
    let mut store = Store::open(place).unwrap();
    store.initialize().unwrap();
    let other = rusqlite::Connection::open(place).unwrap();
    other.execute("DROP TABLE notes_fts", []).unwrap();
    drop(other);

    let n = note("a", "Title", "Body");
    let r = store.save_note(n.clone());
    assert!(matches!(r, Err(StoreError::IndexSync(_))));
    assert!(r.unwrap_err().message().starts_with("Database error: "));
    assert_eq!(store.get_note("a").unwrap().unwrap(), n);

    assert_eq!(store.delete_note("a"), Ok(1));
    assert_eq!(store.get_note("a"), Ok(None));

    assert_eq!(store.initialize().unwrap(), "Database initialized");
    assert_eq!(store.save_note(n), Ok(()));
    assert_eq!(store.search_notes("title").unwrap().len(), 1);
}

#[test]
fn initialize_adds_the_later_columns_to_an_older_database() {
    let place = "file:webnotes_migration_test?mode=memory&cache=shared";
    let older = rusqlite::Connection::open(place).unwrap();
    older
        .execute(
            "CREATE TABLE notes (
                id TEXT PRIMARY KEY,
                title TEXT NOT NULL DEFAULT '',
                content TEXT NOT NULL DEFAULT '',
                folder_id TEXT,
                is_pinned INTEGER DEFAULT 0,
                updated_at TEXT NOT NULL,
                created_at TEXT NOT NULL
            )",
            [],
        )
        .unwrap();
    older
        .execute(
            "INSERT INTO notes (id, title, content, updated_at, created_at)
             VALUES ('kept', 'Kept', 'from before', 'u', 'c')",
            [],
        )
        .unwrap();
    let mut store = Store::open(place).unwrap();
    assert_eq!(store.initialize().unwrap(), "Database initialized");
    assert_eq!(store.initialize().unwrap(), "Database initialized");
    let kept = store.get_note("kept").unwrap().unwrap();
    assert_eq!(kept.title, "Kept");
    assert_eq!(kept.pinned_at, None);
    assert_eq!(kept.font, None);
    let pinned = store.toggle_pin_at("kept", "2025-01-01T00:00:00+00:00").unwrap();
    assert_eq!(pinned.pinned_at, Some("2025-01-01T00:00:00+00:00".to_string()));
    drop(older);
}

#[test]
fn initialize_hands_back_a_failed_column_addition_that_is_no_duplicate() {
    let file = "/tmp/webnotes_read_only_setup_test.db";
    let older = rusqlite::Connection::open(file).unwrap();
    older
        .execute_batch(
            "DROP TABLE IF EXISTS notes;
             DROP TABLE IF EXISTS folders;
             DROP TABLE IF EXISTS notes_fts;
             CREATE TABLE notes (
                id TEXT PRIMARY KEY,
                title TEXT NOT NULL DEFAULT '',
                content TEXT NOT NULL DEFAULT '',
                folder_id TEXT,
                is_pinned INTEGER DEFAULT 0,
                updated_at TEXT NOT NULL,
                created_at TEXT NOT NULL
             );
             CREATE TABLE folders (id TEXT PRIMARY KEY, name TEXT NOT NULL, created_at TEXT NOT NULL);
             CREATE VIRTUAL TABLE notes_fts USING fts5(id, title, content);
             CREATE INDEX idx_notes_folder_id ON notes(folder_id);
             CREATE INDEX idx_notes_updated_at ON notes(updated_at DESC);
             CREATE INDEX idx_notes_is_pinned ON notes(is_pinned);",
        )
        .unwrap();
    drop(older);

    let mut store = Store::open("file:/tmp/webnotes_read_only_setup_test.db?mode=ro").unwrap();
    let r = store.initialize();
    assert!(matches!(r, Err(StoreError::Storage(_))));
    let text = r.unwrap_err().message();
    assert!(text.starts_with("Database error: "));
    assert!(!text.contains("duplicate column name"));

    let mut writable = Store::open(file).unwrap();
    assert_eq!(writable.initialize().unwrap(), "Database initialized");
    assert_eq!(writable.initialize().unwrap(), "Database initialized");
}

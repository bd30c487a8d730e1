//! What can go wrong in the store, and how it is put into words.

use vstd::prelude::*;
use vstd::string::StringExecFns;

verus! {

/// Why an identifier was turned away before the database was touched.
#[derive(Clone, Copy, Debug, PartialEq, Eq)]
pub enum Invalid {
    /// A note without an identifier.
    EmptyNoteId,
    /// A note identifier of more than a hundred characters.
    NoteIdTooLong,
    /// A folder without an identifier.
    EmptyFolderId,
}

/// The failure of an operation of the store.
#[derive(Debug, PartialEq, Eq)]
pub enum StoreError {
    /// The caller handed in an identifier that the store does not take.
    Validation(Invalid),
    /// The operation needs a row that is not there.
    NotFound,
    /// The database engine failed; the text is the engine's own.
    Storage(String),
    /// The note was written, the search index was not; the text is the engine's own.
    IndexSync(String),
}

pub open spec fn validation_text(issue: Invalid) -> Seq<char> {
    match issue {
        Invalid::EmptyNoteId => "Note ID cannot be empty"@,
        Invalid::NoteIdTooLong => "Note ID too long"@,
        Invalid::EmptyFolderId => "Folder ID cannot be empty"@,
    }
}

impl StoreError {
    /// The sentence that a caller is shown for this failure.
    pub open spec fn text(self) -> Seq<char> {
        match self {
            StoreError::Validation(issue) => validation_text(issue),
            StoreError::NotFound => "Database error: Query returned no rows"@,
            StoreError::Storage(detail) => "Database error: "@ + detail@,
            StoreError::IndexSync(detail) => "Database error: "@ + detail@,
        }
    }

    /// The sentence that a caller is shown for this failure.
    pub fn message(&self) -> (text: String)
        ensures
            text@ == self.text(),
    {
        match self {
            StoreError::Validation(Invalid::EmptyNoteId) => String::from_str(
                "Note ID cannot be empty",
            ),
            StoreError::Validation(Invalid::NoteIdTooLong) => String::from_str("Note ID too long"),
            StoreError::Validation(Invalid::EmptyFolderId) => String::from_str(
                "Folder ID cannot be empty",
            ),
            StoreError::NotFound => String::from_str("Database error: Query returned no rows"),
            StoreError::Storage(detail) => String::from_str("Database error: ").concat(
                detail.as_str(),
            ),
            StoreError::IndexSync(detail) => String::from_str("Database error: ").concat(
                detail.as_str(),
            ),
        }
    }
}

} // verus!

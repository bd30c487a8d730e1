//! Notes and folders as the store keeps them, and what they are to a contract.

use vstd::prelude::*;

verus! {

/// A note. `id` is chosen by the caller and names the note for good;
/// `folder_id` is `None` while the note is unfiled.
#[derive(Debug, PartialEq, Eq)]
pub struct Note {
    pub id: String,
    pub title: String,
    pub content: String,
    pub folder_id: Option<String>,
    pub is_pinned: bool,
    pub pinned_at: Option<String>,
    pub font: Option<String>,
    pub updated_at: String,
    pub created_at: String,
}

/// A folder that notes can be filed under.
#[derive(Debug, PartialEq, Eq)]
pub struct Folder {
    pub id: String,
    pub name: String,
    pub created_at: String,
}

/// A note as a mathematical value: every text is the sequence of its characters.
pub ghost struct NoteView {
    pub id: Seq<char>,
    pub title: Seq<char>,
    pub content: Seq<char>,
    pub folder_id: Option<Seq<char>>,
    pub is_pinned: bool,
    pub pinned_at: Option<Seq<char>>,
    pub font: Option<Seq<char>>,
    pub updated_at: Seq<char>,
    pub created_at: Seq<char>,
}

/// A folder as a mathematical value.
pub ghost struct FolderView {
    pub id: Seq<char>,
    pub name: Seq<char>,
    pub created_at: Seq<char>,
}

/// The characters of an optional text.
pub open spec fn text_view(text: Option<String>) -> Option<Seq<char>> {
    match text {
        Some(s) => Some(s@),
        None => None,
    }
}

impl View for Note {
    type V = NoteView;

    open spec fn view(&self) -> NoteView {
        NoteView {
            id: self.id@,
            title: self.title@,
            content: self.content@,
            folder_id: text_view(self.folder_id),
            is_pinned: self.is_pinned,
            pinned_at: text_view(self.pinned_at),
            font: text_view(self.font),
            updated_at: self.updated_at@,
            created_at: self.created_at@,
        }
    }
}

impl View for Folder {
    type V = FolderView;

    open spec fn view(&self) -> FolderView {
        FolderView { id: self.id@, name: self.name@, created_at: self.created_at@ }
    }
}

impl NoteView {
    /// A note carries a pin time exactly while it is pinned.
    pub open spec fn pin_consistent(self) -> bool {
        self.pinned_at is Some <==> self.is_pinned
    }
}

/// The views of a sequence of notes, in the same order.
pub open spec fn note_views(notes: Seq<Note>) -> Seq<NoteView> {
    Seq::new(notes.len(), |i: int| notes[i]@)
}

/// The views of a sequence of folders, in the same order.
pub open spec fn folder_views(folders: Seq<Folder>) -> Seq<FolderView> {
    Seq::new(folders.len(), |i: int| folders[i]@)
}

/// A copy of an optional text.
pub fn clone_text(text: &Option<String>) -> (copy: Option<String>)
    ensures
        copy == *text,
{
    match text {
        Some(s) => Some(s.clone()),
        None => None,
    }
}

impl Clone for Note {
    fn clone(&self) -> (copy: Self)
        ensures
            copy == *self,
    {
        Note {
            id: self.id.clone(),
            title: self.title.clone(),
            content: self.content.clone(),
            folder_id: clone_text(&self.folder_id),
            is_pinned: self.is_pinned,
            pinned_at: clone_text(&self.pinned_at),
            font: clone_text(&self.font),
            updated_at: self.updated_at.clone(),
            created_at: self.created_at.clone(),
        }
    }
}

impl Clone for Folder {
    fn clone(&self) -> (copy: Self)
        ensures
            copy == *self,
    {
        Folder {
            id: self.id.clone(),
            name: self.name.clone(),
            created_at: self.created_at.clone(),
        }
    }
}

} // verus!

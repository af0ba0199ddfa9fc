//! Notes on records.
use crate::error::DemonlistError;
use crate::text::{blank, is_blank};
use vstd::prelude::*;

verus! {

#[derive(Debug, Hash)]
pub struct Note {
    pub id: i32,
    pub record: i32,
    pub content: String,
    pub is_public: bool,
    /// Whether this note was made on a different record and moved to this one when that
    /// record was deleted.
    pub transferred: bool,
    /// The name of the user that made this note; `None` for a note the submitter gave.
    pub author: Option<String>,
    /// The names of the users that edited this note.
    pub editors: Vec<String>,
}

#[derive(Debug)]
pub struct NewNote {
    pub content: String,
    pub is_public: bool,
}

#[derive(Debug)]
pub struct PatchNote {
    pub content: Option<String>,
    pub is_public: Option<bool>,
}

impl Note {
    /// The note `new_note` becomes on record `record` under id `id`; blank content is
    /// refused. The note has no author and no editors yet.
    pub fn create_on(record: i32, id: i32, new_note: NewNote) -> (r: Result<Note, DemonlistError>)
        ensures
            blank(new_note.content@) ==> r == Err::<Note, DemonlistError>(DemonlistError::NoteEmpty),
            !blank(new_note.content@) ==> (r matches Ok(n) && n.id == id && n.record == record && n.content
                == new_note.content && n.is_public == new_note.is_public && !n.transferred && n.author
                is None && n.editors@.len() == 0),
    {
        if is_blank(new_note.content.as_str()) {
            return Err(DemonlistError::NoteEmpty);
        }
        Ok(
            Note {
                id,
                record,
                content: new_note.content,
                is_public: new_note.is_public,
                transferred: false,
                author: None,
                editors: Vec::new(),
            },
        )
    }

    /// Applies a patch: blank content is refused (and nothing changes); otherwise the
    /// content and the public flag are set where the patch gives them.
    pub fn apply_patch(self, patch: PatchNote) -> (r: Result<Note, DemonlistError>)
        ensures
            patch.content matches Some(c) && blank(c@) ==> r == Err::<Note, DemonlistError>(
                DemonlistError::NoteEmpty,
            ),
            !(patch.content matches Some(c) && blank(c@)) ==> (r matches Ok(n) && n.id == self.id && n.record
                == self.record && n.content == (match patch.content {
                Some(c) => c,
                None => self.content,
            }) && n.is_public == (match patch.is_public {
                Some(p) => p,
                None => self.is_public,
            }) && n.transferred == self.transferred && n.author == self.author && n.editors == self.editors),
    {
        let mut note = self;
        if let Some(content) = patch.content {
            if is_blank(content.as_str()) {
                return Err(DemonlistError::NoteEmpty);
            }
            note.content = content;
        }
        if let Some(is_public) = patch.is_public {
            note.is_public = is_public;
        }
        Ok(note)
    }
}

} // verus!

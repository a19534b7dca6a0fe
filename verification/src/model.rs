use vstd::prelude::*;
use vstd::string::*;

verus! {

/// What a login yields: the access token and where the knowledge base lives.
/// Made once per run and only read afterwards.
#[derive(Debug, Clone)]
pub struct UserInfo {
    pub kb_guid: String,
    pub kb_server: String,
    pub token: String,
}

/// The body of the login request.
#[derive(Debug, Clone)]
pub struct LoginRequest {
    pub auto_login: bool,
    pub device_id: String,
    pub front_lang: String,
    pub password: String,
    pub user_id: String,
}

/// One record of the document index.
#[derive(Debug, Clone)]
pub struct NoteMetadata {
    pub doc_guid: String,
    pub version: i32,
    pub title: String,
    pub category: String,
    pub created: i64,
    pub content_type: Option<String>,
    pub file_type: Option<String>,
    pub protected: i8,
}

/// One document with its content body.
#[derive(Debug, Clone)]
pub struct Note {
    pub doc_guid: String,
    pub created: i64,
    pub title: String,
    pub category: String,
    pub content_type: Option<String>,
    pub file_type: Option<String>,
    pub html: Option<String>,
}

/// The payload of a detail response: the record and, beside it, the body.
#[derive(Debug, Clone)]
pub struct NoteDownload {
    pub note: Note,
    pub html: Option<String>,
}

impl NoteMetadata {
    /// Whether the document needs a password to be read.
    pub open spec fn spec_is_protected(&self) -> bool {
        self.protected > 0
    }

    /// Whether the record is tagged as a document.
    pub open spec fn spec_is_document(&self) -> bool {
        self.content_type matches Some(tag) && tag@ == "document"@
    }

    /// Whether the document is exported: it is tagged as a document and is
    /// not protected.
    pub open spec fn spec_is_exportable(&self) -> bool {
        self.spec_is_document() && !self.spec_is_protected()
    }

    /// Whether the document needs a password to be read.
    pub fn is_protected(&self) -> (b: bool)
        ensures
            b == self.spec_is_protected(),
    {
        self.protected > 0
    }

    /// Whether the record is tagged as a document.
    pub fn is_document(&self) -> (b: bool)
        ensures
            b == self.spec_is_document(),
    {
        let wanted = String::from_str("document");
        match &self.content_type {
            Some(tag) => *tag == wanted,
            None => false,
        }
    }

    /// Whether the document is exported.
    pub fn is_exportable(&self) -> (b: bool)
        ensures
            b == self.spec_is_exportable(),
    {
        self.is_document() && !self.is_protected()
    }
}

impl NoteDownload {
    /// The record with its content replaced by the body that came beside it.
    pub open spec fn spec_into_note(self) -> Note {
        Note {
            doc_guid: self.note.doc_guid,
            created: self.note.created,
            title: self.note.title,
            category: self.note.category,
            content_type: self.note.content_type,
            file_type: self.note.file_type,
            html: self.html,
        }
    }

    /// Puts the body that came beside the record into the record, whatever
    /// the record held before.
    pub fn into_note(self) -> (note: Note)
        ensures
            note == self.spec_into_note(),
    {
        let mut note = self.note;
        note.html = self.html;
        note
    }
}

} // verus!

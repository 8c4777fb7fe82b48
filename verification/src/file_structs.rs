use vstd::prelude::*;
use crate::provided_value::Maybe;
use crate::reference::{FileDetails, Reference};
use crate::revision_model::FileRevisionType;

verus! {

/// A request to attach a new file to a page.
#[derive(Debug, Clone)]
pub struct CreateFile {
    pub site_id: i64,
    pub page_id: i64,
    pub name: String,
    pub uploaded_blob_id: String,
    pub revision_comments: String,
    pub user_id: i64,
    /// The licensing metadata, as JSON text.
    pub licensing: String,
    pub bypass_filter: bool,
}

/// Names one file on one page of one site.
#[derive(Debug, Clone)]
pub struct GetFile {
    pub site_id: i64,
    pub page_id: i64,
    pub file: Reference,
}

/// Names one file and says how much of it to return.
#[derive(Debug, Clone)]
pub struct GetFileDetails {
    pub input: GetFile,
    pub details: FileDetails,
}

/// A file together with its current revision.
#[derive(Debug, Clone)]
pub struct GetFileOutput {
    pub file_id: i64,
    /// Seconds since the Unix epoch.
    pub file_created_at: i64,
    pub file_updated_at: Option<i64>,
    pub file_deleted_at: Option<i64>,
    pub page_id: i64,
    pub revision_id: i64,
    pub revision_type: FileRevisionType,
    pub revision_created_at: i64,
    pub revision_number: i32,
    pub revision_user_id: i64,
    pub name: String,
    pub data: Option<Vec<u8>>,
    pub mime: String,
    pub size: i64,
    /// The licensing metadata, as JSON text.
    pub licensing: String,
    pub revision_comments: String,
    pub hidden_fields: Vec<String>,
}

/// Names the files of a page, optionally by whether they are deleted.
#[derive(Debug, Clone)]
pub struct GetPageFiles {
    pub site_id: i64,
    pub page_id: i64,
    pub deleted: Maybe<bool>,
}

/// A request to change a file.
#[derive(Debug, Clone)]
pub struct EditFile {
    pub site_id: i64,
    pub page_id: i64,
    pub file_id: i64,
    pub user_id: i64,
    /// The revision that the caller believes is current.
    pub last_revision_id: i64,
    pub revision_comments: String,
    pub body: EditFileBody,
    pub bypass_filter: bool,
}

/// The fields that an edit may mention.
#[derive(Debug, Clone)]
pub struct EditFileBody {
    pub name: Maybe<String>,
    /// The licensing metadata, as JSON text.
    pub licensing: Maybe<String>,
    pub uploaded_blob_id: Maybe<String>,
}

/// A request to move a file to another page, possibly under a new name.
#[derive(Debug, Clone)]
pub struct MoveFile {
    pub revision_comments: String,
    pub site_id: i64,
    pub file_id: i64,
    pub user_id: i64,
    /// The revision that the caller believes is current.
    pub last_revision_id: i64,
    pub name: Option<String>,
    pub current_page_id: i64,
    pub destination_page: Reference,
}

/// A request to delete a file.
#[derive(Debug, Clone)]
pub struct DeleteFile {
    /// The revision that the caller believes is current.
    pub last_revision_id: i64,
    pub revision_comments: String,
    pub site_id: i64,
    pub page_id: i64,
    pub file: Reference,
    pub user_id: i64,
}

/// What deleting a file hands back.
#[derive(Debug, Clone, Copy, PartialEq, Eq, Structural)]
pub struct DeleteFileOutput {
    pub file_id: i64,
    pub file_revision_id: i64,
    pub file_revision_number: i32,
}

/// A request to restore a deleted file.
#[derive(Debug, Clone)]
pub struct RestoreFile {
    pub revision_comments: String,
    pub new_page: Option<Reference>,
    pub new_name: Option<String>,
    pub site_id: i64,
    pub page_id: i64,
    pub file_id: i64,
    pub user_id: i64,
}

/// What restoring a file hands back.
#[derive(Debug, Clone)]
pub struct RestoreFileOutput {
    pub page_id: i64,
    pub file_id: i64,
    pub name: String,
    pub file_revision_id: i64,
    pub file_revision_number: i32,
}

/// A request to bring a file back to the state of an earlier revision.
#[derive(Debug, Clone)]
pub struct RollbackFile {
    pub site_id: i64,
    pub page_id: i64,
    pub file: Reference,
    /// The revision that the caller believes is current.
    pub last_revision_id: i64,
    pub revision_number: i32,
    pub revision_comments: String,
    pub user_id: i64,
    pub bypass_filter: bool,
}

} // verus!

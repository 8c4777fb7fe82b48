use vstd::prelude::*;
use crate::provided_value::ProvidedValue;
use crate::revision_model::{FileField, FileRevisionModel, FileRevisionType, RevisionView};

verus! {

/// A content reference: the stored blob's hash with its size and MIME hints.
///
/// The three travel together; a change to any of them is one change.
#[derive(Debug, Clone)]
pub struct FileBlob {
    pub s3_hash: Vec<u8>,
    pub size_hint: i64,
    pub mime_hint: String,
}

/// The mathematical value of a content reference.
pub ghost struct BlobView {
    pub s3_hash: Seq<u8>,
    pub size_hint: i64,
    pub mime_hint: Seq<char>,
}

impl View for FileBlob {
    type V = BlobView;

    open spec fn view(&self) -> BlobView {
        BlobView { s3_hash: self.s3_hash@, size_hint: self.size_hint, mime_hint: self.mime_hint@ }
    }
}

/// The fields of a file that a revision records in full.
#[derive(Debug, Clone)]
pub struct FileSnapshot {
    pub page_id: i64,
    pub name: String,
    pub s3_hash: Vec<u8>,
    pub size_hint: i64,
    pub mime_hint: String,
    pub licensing: String,
}

/// The mathematical value of a snapshot.
pub ghost struct SnapshotView {
    pub page_id: i64,
    pub name: Seq<char>,
    pub s3_hash: Seq<u8>,
    pub size_hint: i64,
    pub mime_hint: Seq<char>,
    pub licensing: Seq<char>,
}

impl View for FileSnapshot {
    type V = SnapshotView;

    open spec fn view(&self) -> SnapshotView {
        SnapshotView {
            page_id: self.page_id,
            name: self.name@,
            s3_hash: self.s3_hash@,
            size_hint: self.size_hint,
            mime_hint: self.mime_hint@,
            licensing: self.licensing@,
        }
    }
}

impl RevisionView {
    /// The snapshot that the row records.
    pub open spec fn snapshot(self) -> SnapshotView {
        SnapshotView {
            page_id: self.page_id,
            name: self.name,
            s3_hash: self.s3_hash,
            size_hint: self.size_hint,
            mime_hint: self.mime_hint,
            licensing: self.licensing,
        }
    }
}

/// The fields that an update request may mention.
#[derive(Debug, Clone)]
pub struct CreateFileRevisionBody {
    pub page_id: ProvidedValue<i64>,
    pub name: ProvidedValue<String>,
    pub blob: ProvidedValue<FileBlob>,
    pub licensing: ProvidedValue<String>,
}

/// The mathematical value of an update's body.
pub ghost struct BodyView {
    pub page_id: ProvidedValue<i64>,
    pub name: ProvidedValue<Seq<char>>,
    pub blob: ProvidedValue<BlobView>,
    pub licensing: ProvidedValue<Seq<char>>,
}

impl View for CreateFileRevisionBody {
    type V = BodyView;

    open spec fn view(&self) -> BodyView {
        BodyView {
            page_id: self.page_id,
            name: match self.name {
                ProvidedValue::Provided(name) => ProvidedValue::Provided(name@),
                ProvidedValue::Unset => ProvidedValue::Unset,
            },
            blob: match self.blob {
                ProvidedValue::Provided(blob) => ProvidedValue::Provided(blob@),
                ProvidedValue::Unset => ProvidedValue::Unset,
            },
            licensing: match self.licensing {
                ProvidedValue::Provided(licensing) => ProvidedValue::Provided(licensing@),
                ProvidedValue::Unset => ProvidedValue::Unset,
            },
        }
    }
}

/// A request to record an update of a live file.
#[derive(Debug, Clone)]
pub struct CreateFileRevision {
    pub site_id: i64,
    pub page_id: i64,
    pub file_id: String,
    pub user_id: i64,
    pub comments: String,
    pub body: CreateFileRevisionBody,
}

/// What `create` and its siblings hand back once a revision is stored.
#[derive(Debug, Clone, Copy, PartialEq, Eq, Structural)]
pub struct CreateFileRevisionOutput {
    pub file_revision_id: i64,
    pub file_revision_number: i32,
}

/// A request to record the first revision of a newly uploaded file.
#[derive(Debug, Clone)]
pub struct CreateFirstFileRevision {
    pub site_id: i64,
    pub page_id: i64,
    pub file_id: String,
    pub user_id: i64,
    pub name: String,
    pub s3_hash: Vec<u8>,
    pub size_hint: i64,
    pub mime_hint: String,
    pub licensing: String,
    pub comments: String,
}

/// A request to mark a file as deleted.
#[derive(Debug, Clone)]
pub struct CreateTombstoneFileRevision {
    pub site_id: i64,
    pub page_id: i64,
    pub file_id: String,
    pub user_id: i64,
    pub comments: String,
}

/// A request to restore a deleted file, possibly elsewhere or renamed.
#[derive(Debug, Clone)]
pub struct CreateResurrectionFileRevision {
    pub site_id: i64,
    pub page_id: i64,
    pub file_id: String,
    pub user_id: i64,
    /// The page to restore onto; the page it was deleted from when absent.
    pub new_page_id: Option<i64>,
    /// The name to restore under; the name it was deleted with when absent.
    pub new_name: Option<String>,
    pub comments: String,
}

/// A request to replace the redaction set of a revision.
#[derive(Debug, Clone)]
pub struct UpdateFileRevision {
    pub user_id: i64,
    pub hidden: Vec<String>,
}

/// Names one revision of one file.
#[derive(Debug, Clone)]
pub struct GetFileRevision {
    pub page_id: i64,
    pub file_id: String,
    pub revision_number: i32,
}

/// Which invalidation of derived state a transition calls for.
#[derive(Debug, Clone, Copy, PartialEq, Eq, Structural)]
pub enum OutdateKind {
    /// The entity newly occupies a slot on the page.
    Displace,
    /// The page's visible content changed.
    Edit,
}

/// The invalidation that must complete before a revision is stored.
///
/// The page is named by id; whoever delivers the notice resolves the page's
/// current slug.
#[derive(Debug, Clone, Copy, PartialEq, Eq, Structural)]
pub struct OutdateNotice {
    pub kind: OutdateKind,
    pub site_id: i64,
    pub page_id: i64,
}

/// A revision that has been decided on but not stored yet.
///
/// It names the revision it was derived from, so that storing it fails if
/// the history has moved on in the meantime.
#[derive(Debug, Clone)]
pub struct PendingRevision {
    /// The revision this one follows; `None` for a first revision.
    pub previous_revision_id: Option<i64>,
    /// The page of the owner that the request addressed.
    pub source_page_id: i64,
    pub file_id: String,
    pub revision_type: FileRevisionType,
    pub user_id: i64,
    pub comments: String,
    pub snapshot: FileSnapshot,
    pub changes: Vec<FileField>,
    pub notice: OutdateNotice,
}

/// The mathematical value of a pending revision.
pub ghost struct PendingView {
    pub previous_revision_id: Option<i64>,
    pub source_page_id: i64,
    pub file_id: Seq<char>,
    pub revision_type: FileRevisionType,
    pub user_id: i64,
    pub comments: Seq<char>,
    pub snapshot: SnapshotView,
    pub changes: Seq<FileField>,
    pub notice: OutdateNotice,
}

impl View for PendingRevision {
    type V = PendingView;

    open spec fn view(&self) -> PendingView {
        PendingView {
            previous_revision_id: self.previous_revision_id,
            source_page_id: self.source_page_id,
            file_id: self.file_id@,
            revision_type: self.revision_type,
            user_id: self.user_id,
            comments: self.comments@,
            snapshot: self.snapshot@,
            changes: self.changes@,
            notice: self.notice,
        }
    }
}

impl PendingView {
    /// The row that storing this revision appends, given the identifier,
    /// number and time that the store assigns.
    pub open spec fn row(self, revision_id: i64, revision_number: i32, created_at: i64) -> RevisionView {
        RevisionView {
            revision_id,
            revision_type: self.revision_type,
            created_at,
            revision_number,
            file_id: self.file_id,
            page_id: self.snapshot.page_id,
            user_id: self.user_id,
            name: self.snapshot.name,
            s3_hash: self.snapshot.s3_hash,
            mime_hint: self.snapshot.mime_hint,
            size_hint: self.snapshot.size_hint,
            licensing: self.snapshot.licensing,
            changes: self.changes,
            comments: self.comments,
            hidden: Seq::empty(),
        }
    }
}

impl FileRevisionModel {
    /// A copy of the snapshot that the row records.
    pub fn to_snapshot(&self) -> (r: FileSnapshot)
        ensures
            r@ == self@.snapshot(),
    {
        FileSnapshot {
            page_id: self.page_id,
            name: self.name.clone(),
            s3_hash: crate::revision_model::copy_bytes(&self.s3_hash),
            size_hint: self.size_hint,
            mime_hint: self.mime_hint.clone(),
            licensing: self.licensing.clone(),
        }
    }
}

} // verus!

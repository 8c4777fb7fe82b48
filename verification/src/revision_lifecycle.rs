use vstd::prelude::*;
use crate::change_set::{change_set, compute_changes, proposed_snapshot, valid_snapshot, validate_snapshot};
use crate::error::ServiceError;
use crate::revision_model::{copy_bytes, FileField, FileRevisionModel, FileRevisionType, RevisionView};
use crate::revision_service::{head_index, FileRevisionService};
use crate::revision_store::{history, RevisionStore};
use crate::revision_structs::{
    CreateFileRevision, CreateFirstFileRevision, CreateResurrectionFileRevision, CreateTombstoneFileRevision,
    FileSnapshot, OutdateKind, OutdateNotice, PendingRevision, PendingView, SnapshotView,
};

verus! {

/// The number of the revision that follows `previous`.
///
/// The previous revision must belong to the owner that the request
/// addresses. One that belongs to another page or another file shows a
/// defect in the caller, and is answered with `Internal`.
pub fn next_revision_number(previous: &FileRevisionModel, page_id: i64, file_id: &str) -> (r: Result<i32, ServiceError>)
    requires
        previous@.owned_by(page_id, file_id@) ==> previous.revision_number < i32::MAX,
    ensures
        previous@.owned_by(page_id, file_id@) ==> r == Ok::<i32, ServiceError>((previous.revision_number + 1) as i32),
        !previous@.owned_by(page_id, file_id@) ==> r == Err::<i32, ServiceError>(ServiceError::Internal),
{
    if !previous.is_owned_by(page_id, file_id) {
        return Err(ServiceError::Internal);
    }
    Ok(previous.revision_number + 1)
}

/// Compares the token of a mutation with the current head.
///
/// A mutation names the revision that its caller last read. If the head
/// has moved on since, the caller lost a race, and the mutation is refused
/// with `Conflict`.
pub fn check_last_revision(head: &FileRevisionModel, last_revision_id: i64) -> (r: Result<(), ServiceError>)
    ensures
        head.revision_id == last_revision_id ==> r == Ok::<(), ServiceError>(()),
        head.revision_id != last_revision_id ==> r == Err::<(), ServiceError>(ServiceError::Conflict),
{
    if head.revision_id == last_revision_id {
        Ok(())
    } else {
        Err(ServiceError::Conflict)
    }
}

/// The head of an owner, if the owner has rows.
pub open spec fn head_of(rows: Seq<RevisionView>, page_id: i64, file_id: Seq<char>) -> Option<RevisionView> {
    if history(rows, page_id, file_id).len() > 0 {
        Some(history(rows, page_id, file_id).last())
    } else {
        None
    }
}

/// The mathematical value of a head that was looked up.
pub open spec fn head_view(head: Option<&FileRevisionModel>) -> Option<RevisionView> {
    match head {
        Some(row) => Some(row@),
        None => None,
    }
}

/// Why a mutation anchored on `previous` cannot proceed, if it cannot.
///
/// `head` is what looking up the owner's head came to. The answer is
/// `Internal` if the supplied revision, or the head, belongs to another
/// owner than the one addressed; `NotFound` if the owner has no head;
/// `Conflict` if the supplied revision is not the head any more.
pub open spec fn guard_error(
    head: Option<RevisionView>,
    page_id: i64,
    file_id: Seq<char>,
    previous: RevisionView,
) -> Option<ServiceError> {
    if !previous.owned_by(page_id, file_id) {
        Some(ServiceError::Internal)
    } else {
        match head {
            None => Some(ServiceError::NotFound),
            Some(row) => if !row.owned_by(page_id, file_id) {
                Some(ServiceError::Internal)
            } else if row.revision_id != previous.revision_id {
                Some(ServiceError::Conflict)
            } else {
                None
            },
        }
    }
}

/// What an update request comes to.
///
/// After the guard, an update of a tombstoned file is a `Conflict`; an
/// update that changes nothing is `Ok(None)`; one that proposes an invalid
/// snapshot is a `BadRequest`; any other is the pending revision of type
/// `Update`, with an edit notice for the page that the file ends up on.
pub open spec fn update_decision(
    looked_up: Option<RevisionView>,
    input: CreateFileRevision,
    previous: RevisionView,
) -> Result<Option<PendingView>, ServiceError> {
    let head = looked_up->Some_0;
    let proposed = proposed_snapshot(head.snapshot(), input.body@);
    let changes = change_set(head.snapshot(), input.body@);
    match guard_error(looked_up, input.page_id, input.file_id@, previous) {
        Some(e) => Err(e),
        None => if head.is_tombstone() {
            Err(ServiceError::Conflict)
        } else if changes.len() == 0 {
            Ok(None)
        } else if !valid_snapshot(proposed) {
            Err(ServiceError::BadRequest)
        } else {
            Ok(
                Some(
                    PendingView {
                        previous_revision_id: Some(head.revision_id),
                        source_page_id: input.page_id,
                        file_id: input.file_id@,
                        revision_type: FileRevisionType::Update,
                        user_id: input.user_id,
                        comments: input.comments@,
                        snapshot: proposed,
                        changes,
                        notice: OutdateNotice {
                            kind: OutdateKind::Edit,
                            site_id: input.site_id,
                            page_id: proposed.page_id,
                        },
                    },
                ),
            )
        },
    }
}

/// What an update request comes to in a given log.
pub open spec fn update_outcome(rows: Seq<RevisionView>, input: CreateFileRevision, previous: RevisionView) -> Result<
    Option<PendingView>,
    ServiceError,
> {
    update_decision(head_of(rows, input.page_id, input.file_id@), input, previous)
}

/// The change-set of a first revision: by definition everything changed.
///
/// It lists the four fields that a change-set can name, in their fixed
/// order: page, name, content reference, licensing. The MIME hint is part
/// of the content reference and has no entry of its own.
pub open spec fn all_changes() -> Seq<FileField> {
    seq![FileField::Page, FileField::Name, FileField::Blob, FileField::Licensing]
}

/// What a request for a first revision comes to.
///
/// A `Conflict` if the owner already has rows; otherwise the pending
/// revision of type `Create` with the snapshot as provided, listing every
/// field as changed, with a displacement notice for the page.
pub open spec fn first_decision(looked_up: Option<RevisionView>, input: CreateFirstFileRevision) -> Result<
    PendingView,
    ServiceError,
> {
    if looked_up is Some {
        Err(ServiceError::Conflict)
    } else {
        Ok(
            PendingView {
                previous_revision_id: None,
                source_page_id: input.page_id,
                file_id: input.file_id@,
                revision_type: FileRevisionType::Create,
                user_id: input.user_id,
                comments: input.comments@,
                snapshot: SnapshotView {
                    page_id: input.page_id,
                    name: input.name@,
                    s3_hash: input.s3_hash@,
                    size_hint: input.size_hint,
                    mime_hint: input.mime_hint@,
                    licensing: input.licensing@,
                },
                changes: all_changes(),
                notice: OutdateNotice {
                    kind: OutdateKind::Displace,
                    site_id: input.site_id,
                    page_id: input.page_id,
                },
            },
        )
    }
}

/// What a request for a first revision comes to in a given log.
pub open spec fn first_outcome(rows: Seq<RevisionView>, input: CreateFirstFileRevision) -> Result<
    PendingView,
    ServiceError,
> {
    first_decision(head_of(rows, input.page_id, input.file_id@), input)
}

/// What a deletion request comes to.
///
/// After the guard, deleting a file that is already tombstoned is a
/// `Conflict`; otherwise the pending revision of type `Delete`, which
/// carries the head's snapshot forward unchanged and lists no change, with
/// an edit notice for the page.
pub open spec fn tombstone_decision(
    looked_up: Option<RevisionView>,
    input: CreateTombstoneFileRevision,
    previous: RevisionView,
) -> Result<PendingView, ServiceError> {
    let head = looked_up->Some_0;
    match guard_error(looked_up, input.page_id, input.file_id@, previous) {
        Some(e) => Err(e),
        None => if head.is_tombstone() {
            Err(ServiceError::Conflict)
        } else {
            Ok(
                PendingView {
                    previous_revision_id: Some(head.revision_id),
                    source_page_id: input.page_id,
                    file_id: input.file_id@,
                    revision_type: FileRevisionType::Delete,
                    user_id: input.user_id,
                    comments: input.comments@,
                    snapshot: head.snapshot(),
                    changes: Seq::empty(),
                    notice: OutdateNotice {
                        kind: OutdateKind::Edit,
                        site_id: input.site_id,
                        page_id: input.page_id,
                    },
                },
            )
        },
    }
}

/// What a deletion request comes to in a given log.
pub open spec fn tombstone_outcome(
    rows: Seq<RevisionView>,
    input: CreateTombstoneFileRevision,
    previous: RevisionView,
) -> Result<PendingView, ServiceError> {
    tombstone_decision(head_of(rows, input.page_id, input.file_id@), input, previous)
}

/// The page that a restored file lands on.
pub open spec fn restored_page(input: CreateResurrectionFileRevision, head: RevisionView) -> i64 {
    match input.new_page_id {
        Some(page_id) => page_id,
        None => head.page_id,
    }
}

/// The name that a restored file carries.
pub open spec fn restored_name(input: CreateResurrectionFileRevision, head: RevisionView) -> Seq<char> {
    match input.new_name {
        Some(name) => name@,
        None => head.name,
    }
}

/// What a restoration request comes to.
///
/// After the guard, restoring a file that is not tombstoned is a
/// `Conflict`; otherwise the pending revision of type `Undelete`. Page and
/// name default to those of the tombstone and are listed as changed, page
/// before name, only where they differ from it; every other field is
/// carried forward. The edit notice is for the destination page.
pub open spec fn resurrection_decision(
    looked_up: Option<RevisionView>,
    input: CreateResurrectionFileRevision,
    previous: RevisionView,
) -> Result<PendingView, ServiceError> {
    let head = looked_up->Some_0;
    let page_id = restored_page(input, head);
    let name = restored_name(input, head);
    match guard_error(looked_up, input.page_id, input.file_id@, previous) {
        Some(e) => Err(e),
        None => if !head.is_tombstone() {
            Err(ServiceError::Conflict)
        } else {
            Ok(
                PendingView {
                    previous_revision_id: Some(head.revision_id),
                    source_page_id: input.page_id,
                    file_id: input.file_id@,
                    revision_type: FileRevisionType::Undelete,
                    user_id: input.user_id,
                    comments: input.comments@,
                    snapshot: SnapshotView { page_id, name, ..head.snapshot() },
                    changes: crate::change_set::tag_if(page_id != head.page_id, FileField::Page)
                        + crate::change_set::tag_if(name != head.name, FileField::Name),
                    notice: OutdateNotice { kind: OutdateKind::Edit, site_id: input.site_id, page_id },
                },
            )
        },
    }
}

/// What a restoration request comes to in a given log.
pub open spec fn resurrection_outcome(
    rows: Seq<RevisionView>,
    input: CreateResurrectionFileRevision,
    previous: RevisionView,
) -> Result<PendingView, ServiceError> {
    resurrection_decision(head_of(rows, input.page_id, input.file_id@), input, previous)
}

/// Whether an operation's answer is the one that was specified.
pub open spec fn plan_is(r: Result<PendingRevision, ServiceError>, expected: Result<PendingView, ServiceError>) -> bool {
    match (r, expected) {
        (Ok(pending), Ok(view)) => pending@ == view,
        (Err(e), Err(f)) => e == f,
        _ => false,
    }
}

/// Whether an update's answer is the one that was specified.
pub open spec fn optional_plan_is(
    r: Result<Option<PendingRevision>, ServiceError>,
    expected: Result<Option<PendingView>, ServiceError>,
) -> bool {
    match (r, expected) {
        (Ok(Some(pending)), Ok(Some(view))) => pending@ == view,
        (Ok(None), Ok(None)) => true,
        (Err(e), Err(f)) => e == f,
        _ => false,
    }
}

/// Runs the guard of a mutation against the head that was looked up.
///
/// On success the head is handed back: it is the revision to work from.
pub fn check_guard<'a>(
    head: Option<&'a FileRevisionModel>,
    page_id: i64,
    file_id: &str,
    previous: &FileRevisionModel,
) -> (r: Result<&'a FileRevisionModel, ServiceError>)
    ensures
        match r {
            Ok(row) => guard_error(head_view(head), page_id, file_id@, previous@).is_none() && head == Some(row),
            Err(e) => guard_error(head_view(head), page_id, file_id@, previous@) == Some(e),
        },
{
    if !previous.is_owned_by(page_id, file_id) {
        return Err(ServiceError::Internal);
    }
    let row = match head {
        Some(row) => row,
        None => {
            return Err(ServiceError::NotFound);
        },
    };
    if !row.is_owned_by(page_id, file_id) {
        return Err(ServiceError::Internal);
    }
    match check_last_revision(row, previous.revision_id) {
        Ok(()) => Ok(row),
        Err(e) => Err(e),
    }
}

/// Decides on a new revision of an existing file, given its head.
///
/// `head` is what looking up the owner's head came to, and `previous` the
/// revision that the caller last read, whose identifier is the concurrency
/// token. The update is compared with the head field by field. An answer
/// of `Ok(Some(..))` is the revision to store once its notice has been
/// delivered; `Ok(None)` says that the request changes nothing, so that
/// there is nothing to deliver and nothing to store.
pub fn plan_update(head: Option<&FileRevisionModel>, input: CreateFileRevision, previous: &FileRevisionModel) -> (r:
    Result<Option<PendingRevision>, ServiceError>)
    ensures
        optional_plan_is(r, update_decision(head_view(head), input, previous@)),
{
    let head = match check_guard(head, input.page_id, input.file_id.as_str(), previous) {
        Ok(head) => head,
        Err(e) => {
            return Err(e);
        },
    };
    if is_tombstone(head) {
        return Err(ServiceError::Conflict);
    }
    let CreateFileRevision { site_id, page_id, file_id, user_id, comments, body } = input;
    let (changes, snapshot) = compute_changes(head, body);
    if changes.len() == 0 {
        return Ok(None);
    }
    match validate_snapshot(&snapshot) {
        Ok(()) => {},
        Err(e) => {
            return Err(e);
        },
    }
    let notice = OutdateNotice { kind: OutdateKind::Edit, site_id, page_id: snapshot.page_id };
    Ok(
        Some(
            PendingRevision {
                previous_revision_id: Some(head.revision_id),
                source_page_id: page_id,
                file_id,
                revision_type: FileRevisionType::Update,
                user_id,
                comments,
                snapshot,
                changes,
                notice,
            },
        ),
    )
}

/// Decides on the first revision of a newly uploaded file, given what
/// looking up the owner's head came to.
///
/// The fields are taken as provided: checking them is the caller's
/// business.
pub fn plan_first(head: Option<&FileRevisionModel>, input: CreateFirstFileRevision) -> (r: Result<
    PendingRevision,
    ServiceError,
>)
    ensures
        plan_is(r, first_decision(head_view(head), input)),
{
    if head.is_some() {
        return Err(ServiceError::Conflict);
    }
    let CreateFirstFileRevision {
        site_id,
        page_id,
        file_id,
        user_id,
        name,
        s3_hash,
        size_hint,
        mime_hint,
        licensing,
        comments,
    } = input;
    let mut changes: Vec<FileField> = Vec::new();
    changes.push(FileField::Page);
    changes.push(FileField::Name);
    changes.push(FileField::Blob);
    changes.push(FileField::Licensing);
    assert(changes@ =~= all_changes());
    Ok(
        PendingRevision {
            previous_revision_id: None,
            source_page_id: page_id,
            file_id,
            revision_type: FileRevisionType::Create,
            user_id,
            comments,
            snapshot: FileSnapshot { page_id, name, s3_hash, size_hint, mime_hint, licensing },
            changes,
            notice: OutdateNotice { kind: OutdateKind::Displace, site_id, page_id },
        },
    )
}

/// Decides on a tombstone, the revision that marks a file as deleted,
/// given the file's head.
pub fn plan_tombstone(
    head: Option<&FileRevisionModel>,
    input: CreateTombstoneFileRevision,
    previous: &FileRevisionModel,
) -> (r: Result<PendingRevision, ServiceError>)
    ensures
        plan_is(r, tombstone_decision(head_view(head), input, previous@)),
{
    let head = match check_guard(head, input.page_id, input.file_id.as_str(), previous) {
        Ok(head) => head,
        Err(e) => {
            return Err(e);
        },
    };
    if is_tombstone(head) {
        return Err(ServiceError::Conflict);
    }
    let CreateTombstoneFileRevision { site_id, page_id, file_id, user_id, comments } = input;
    Ok(
        PendingRevision {
            previous_revision_id: Some(head.revision_id),
            source_page_id: page_id,
            file_id,
            revision_type: FileRevisionType::Delete,
            user_id,
            comments,
            snapshot: head.to_snapshot(),
            changes: Vec::new(),
            notice: OutdateNotice { kind: OutdateKind::Edit, site_id, page_id },
        },
    )
}

/// Decides on a resurrection, the revision that restores a deleted file,
/// given the file's head.
///
/// Whether the destination page exists and can take the file is for the
/// caller to make sure of beforehand.
pub fn plan_resurrection(
    head: Option<&FileRevisionModel>,
    input: CreateResurrectionFileRevision,
    previous: &FileRevisionModel,
) -> (r: Result<PendingRevision, ServiceError>)
    ensures
        plan_is(r, resurrection_decision(head_view(head), input, previous@)),
{
    let head = match check_guard(head, input.page_id, input.file_id.as_str(), previous) {
        Ok(head) => head,
        Err(e) => {
            return Err(e);
        },
    };
    if !is_tombstone(head) {
        return Err(ServiceError::Conflict);
    }
    let CreateResurrectionFileRevision { site_id, page_id, file_id, user_id, new_page_id, new_name, comments } =
        input;
    let mut changes: Vec<FileField> = Vec::new();
    let destination = match new_page_id {
        Some(new_page_id) => new_page_id,
        None => head.page_id,
    };
    if destination != head.page_id {
        changes.push(FileField::Page);
    }
    let name = match new_name {
        Some(new_name) => new_name,
        None => head.name.clone(),
    };
    if name != head.name {
        changes.push(FileField::Name);
    }
    assert(changes@ =~= crate::change_set::tag_if(destination != head.page_id, FileField::Page)
        + crate::change_set::tag_if(name@ != head.name@, FileField::Name));
    Ok(
        PendingRevision {
            previous_revision_id: Some(head.revision_id),
            source_page_id: page_id,
            file_id,
            revision_type: FileRevisionType::Undelete,
            user_id,
            comments,
            snapshot: FileSnapshot {
                page_id: destination,
                name,
                s3_hash: copy_bytes(&head.s3_hash),
                size_hint: head.size_hint,
                mime_hint: head.mime_hint.clone(),
                licensing: head.licensing.clone(),
            },
            changes,
            notice: OutdateNotice { kind: OutdateKind::Edit, site_id, page_id: destination },
        },
    )
}

/// The head of an owner in a log, as a reference into the log.
pub(crate) fn stored_head<'a>(store: &'a RevisionStore, page_id: i64, file_id: &str) -> (r: Option<&'a FileRevisionModel>)
    ensures
        head_view(r) == head_of(store@, page_id, file_id@),
{
    match head_index(store, page_id, file_id) {
        Some(index) => Some(store.row_at(index)),
        None => None,
    }
}

impl FileRevisionService {
    /// Decides on a new revision of an existing file in a log.
    ///
    /// `previous` is the revision that the caller last read; its identifier
    /// is the concurrency token. The log's own head is what the update is
    /// compared with. Nothing is stored here: see `plan_update` for what
    /// the answer means, and `persist` for storing it.
    ///
    /// The token is compared with the head of the owner addressed, a page
    /// together with a file. An update that moves the file leaves the head
    /// of the page it came from in place, so a later request that still
    /// addresses that page with the old token passes this guard: see
    /// `persist` on the limit that this sets.
    pub fn create(store: &RevisionStore, input: CreateFileRevision, previous: &FileRevisionModel) -> (r: Result<
        Option<PendingRevision>,
        ServiceError,
    >)
        ensures
            optional_plan_is(r, update_outcome(store@, input, previous@)),
    {
        let head = stored_head(store, input.page_id, input.file_id.as_str());
        plan_update(head, input, previous)
    }

    /// Decides on the first revision of a newly uploaded file in a log.
    ///
    /// This is only valid for an owner that has no revision yet.
    pub fn create_first(store: &RevisionStore, input: CreateFirstFileRevision) -> (r: Result<
        PendingRevision,
        ServiceError,
    >)
        ensures
            plan_is(r, first_outcome(store@, input)),
    {
        let head = stored_head(store, input.page_id, input.file_id.as_str());
        plan_first(head, input)
    }

    /// Decides on a tombstone for a file in a log.
    pub fn create_tombstone(
        store: &RevisionStore,
        input: CreateTombstoneFileRevision,
        previous: &FileRevisionModel,
    ) -> (r: Result<PendingRevision, ServiceError>)
        ensures
            plan_is(r, tombstone_outcome(store@, input, previous@)),
    {
        let head = stored_head(store, input.page_id, input.file_id.as_str());
        plan_tombstone(head, input, previous)
    }

    /// Decides on a resurrection for a file in a log.
    pub fn create_resurrection(
        store: &RevisionStore,
        input: CreateResurrectionFileRevision,
        previous: &FileRevisionModel,
    ) -> (r: Result<PendingRevision, ServiceError>)
        ensures
            plan_is(r, resurrection_outcome(store@, input, previous@)),
    {
        let head = stored_head(store, input.page_id, input.file_id.as_str());
        plan_resurrection(head, input, previous)
    }
}

/// Whether a row marks its file as deleted.
fn is_tombstone(row: &FileRevisionModel) -> (r: bool)
    ensures
        r == row@.is_tombstone(),
{
    match row.revision_type {
        FileRevisionType::Delete => true,
        _ => false,
    }
}

} // verus!

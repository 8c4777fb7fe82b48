use vstd::prelude::*;
use crate::error::ServiceError;
use crate::revision_lifecycle::{check_last_revision, head_of, head_view, next_revision_number, stored_head};
use crate::revision_model::{names_view, FileRevisionModel, FileRevisionType, RevisionView};
use crate::revision_service::FileRevisionService;
use crate::revision_store::{
    gapless, history, is_head_at, lemma_history_ascending, lemma_history_last, lemma_history_rows, log_wf, redact,
    selected, RevisionStore,
};
use crate::revision_structs::{
    CreateFileRevisionOutput, FileSnapshot, PendingRevision, PendingView, UpdateFileRevision,
};

verus! {

/// Whether the lifecycle allows a revision of type `to` to follow a head
/// of type `from`.
///
/// A live file can be updated or deleted, a deleted file can only be
/// restored, and nothing follows as a first revision.
pub open spec fn transition_allowed(from: FileRevisionType, to: FileRevisionType) -> bool {
    match to {
        FileRevisionType::Create => false,
        FileRevisionType::Update => from != FileRevisionType::Delete,
        FileRevisionType::Delete => from != FileRevisionType::Delete,
        FileRevisionType::Undelete => from == FileRevisionType::Delete,
    }
}

/// The number that a pending revision is to be stored under, given the
/// revision that was found under the identifier of the one it follows.
///
/// A first revision is numbered zero. Any other follows a revision that
/// must have been found (`NotFound`), must belong to the owner that the
/// request addressed (`Internal`), and must allow the transition
/// (`Conflict`); its number is one more than that revision's.
pub open spec fn number_decision(pending: PendingView, previous: Option<RevisionView>) -> Result<int, ServiceError> {
    match pending.previous_revision_id {
        None => if pending.revision_type != FileRevisionType::Create {
            Err(ServiceError::Conflict)
        } else {
            Ok(0)
        },
        Some(previous_id) => match previous {
            None => Err(ServiceError::NotFound),
            Some(row) => if !row.owned_by(pending.source_page_id, pending.file_id) {
                Err(ServiceError::Internal)
            } else if row.revision_id != previous_id || !transition_allowed(
                row.revision_type,
                pending.revision_type,
            ) {
                Err(ServiceError::Conflict)
            } else {
                Ok(row.revision_number + 1)
            },
        },
    }
}

/// Whether the owner `(page_id, file_id)` already holds a row numbered
/// `number` or higher, so that a row with that number cannot become its
/// head.
pub open spec fn destination_taken(rows: Seq<RevisionView>, page_id: i64, file_id: Seq<char>, number: int) -> bool {
    exists|i: int|
        0 <= i < rows.len() && (#[trigger] rows[i]).owned_by(page_id, file_id) && rows[i].revision_number >= number
}

/// The number that a pending revision is stored under: zero for a first
/// revision, otherwise one more than that of the revision it follows.
pub open spec fn persisted_number(rows: Seq<RevisionView>, pending: PendingView) -> int {
    match pending.previous_revision_id {
        None => 0,
        Some(previous_id) => rows[previous_id - 1].revision_number + 1,
    }
}

/// Why a pending revision cannot be stored, if it cannot.
///
/// A failed notice aborts with the notice's own error. A revision that
/// follows one the log does not hold is `NotFound`; one whose predecessor
/// belongs to another owner than the request addressed is `Internal`. It
/// is a `Conflict` if the predecessor is not the head any more, if the
/// lifecycle does not allow the transition, or if the destination owner
/// already holds a row with the new number or a higher one.
pub open spec fn persist_error(rows: Seq<RevisionView>, pending: PendingView, outdated: Result<(), ServiceError>) -> Option<
    ServiceError,
> {
    let number = persisted_number(rows, pending);
    let taken = destination_taken(rows, pending.snapshot.page_id, pending.file_id, number);
    match outdated {
        Err(e) => Some(e),
        Ok(_) => match pending.previous_revision_id {
            None => if pending.revision_type != FileRevisionType::Create || taken {
                Some(ServiceError::Conflict)
            } else {
                None
            },
            Some(previous_id) => if !(1 <= previous_id <= rows.len()) {
                Some(ServiceError::NotFound)
            } else if !rows[previous_id - 1].owned_by(pending.source_page_id, pending.file_id) {
                Some(ServiceError::Internal)
            } else if history(rows, pending.source_page_id, pending.file_id).last().revision_id != previous_id
                || !transition_allowed(rows[previous_id - 1].revision_type, pending.revision_type) || taken {
                Some(ServiceError::Conflict)
            } else {
                None
            },
        },
    }
}

/// The row that storing a pending revision appends to the log.
pub open spec fn persisted_row(rows: Seq<RevisionView>, pending: PendingView, created_at: i64) -> RevisionView {
    pending.row((rows.len() + 1) as i64, persisted_number(rows, pending) as i32, created_at)
}

/// Storing a pending revision that nothing stands against keeps the log
/// well-formed.
pub proof fn lemma_persist_wf(rows: Seq<RevisionView>, pending: PendingView, created_at: i64)
    requires
        log_wf(rows),
        rows.len() < i32::MAX,
        persist_error(rows, pending, Ok(())).is_none(),
    ensures
        0 <= persisted_number(rows, pending) <= rows.len(),
        log_wf(rows.push(persisted_row(rows, pending, created_at))),
{
    let number = persisted_number(rows, pending);
    let row = persisted_row(rows, pending, created_at);
    let after = rows.push(row);
    match pending.previous_revision_id {
        None => {},
        Some(previous_id) => {
            assert(0 <= rows[previous_id - 1].revision_number <= previous_id - 1);
        },
    }
    assert forall|i: int, j: int|
        0 <= i < j < after.len() && (#[trigger] after[i]).same_owner(
            #[trigger] after[j],
        ) implies after[i].revision_number < after[j].revision_number by {
        if j == rows.len() {
            assert(rows[i].owned_by(pending.snapshot.page_id, pending.file_id));
        } else {
            assert(rows[i].same_owner(rows[j]));
        }
    }
    assert forall|i: int| 0 <= i < after.len() && is_head_at(after, i) implies (#[trigger] after[i]).hidden.len()
        == 0 by {
        if i < rows.len() {
            assert forall|later: int| i < later < rows.len() implies !(#[trigger] rows[later]).same_owner(
                rows[i],
            ) by {
                assert(after[later] == rows[later]);
            }
            assert(is_head_at(rows, i));
        }
    }
    assert forall|i: int| 0 <= i < after.len() implies (#[trigger] after[i]).revision_id == i + 1 by {
        if i < rows.len() {
            assert(after[i] == rows[i]);
        }
    }
    assert forall|i: int| 0 <= i < after.len() implies 0 <= (#[trigger] after[i]).revision_number <= i by {
        if i < rows.len() {
            assert(after[i] == rows[i]);
        }
    }
    assert forall|i: int| 0 <= i < after.len() implies ((#[trigger] after[i]).revision_type
        == FileRevisionType::Create <==> after[i].revision_number == 0) by {
        if i < rows.len() {
            assert(after[i] == rows[i]);
        }
    }
}

/// Why a redaction cannot be made, if it cannot.
///
/// `NotFound` if the owner has no rows, `CannotHideLatestRevision` if the
/// target is the owner's head, `NotFound` if the owner has no revision
/// with the target's identifier.
pub open spec fn redaction_error(rows: Seq<RevisionView>, page_id: i64, file_id: Seq<char>, revision_id: i64) -> Option<
    ServiceError,
> {
    if history(rows, page_id, file_id).len() == 0 {
        Some(ServiceError::NotFound)
    } else if history(rows, page_id, file_id).last().revision_id == revision_id {
        Some(ServiceError::CannotHideLatestRevision)
    } else if !(1 <= revision_id <= rows.len() && rows[revision_id - 1].owned_by(page_id, file_id)) {
        Some(ServiceError::NotFound)
    } else {
        None
    }
}

/// Redacting a revision that is not a head keeps the log well-formed.
pub proof fn lemma_redact_wf(
    rows: Seq<RevisionView>,
    page_id: i64,
    file_id: Seq<char>,
    revision_id: i64,
    hidden: Seq<Seq<char>>,
)
    requires
        log_wf(rows),
        redaction_error(rows, page_id, file_id, revision_id).is_none(),
    ensures
        redact(rows, revision_id, hidden) == rows.update(
            revision_id - 1,
            rows[revision_id - 1].with_hidden(hidden),
        ),
        !is_head_at(rows, revision_id - 1),
        log_wf(redact(rows, revision_id, hidden)),
{
    let target = revision_id - 1;
    let after = redact(rows, revision_id, hidden);
    assert(after =~= rows.update(target, rows[target].with_hidden(hidden)));
    lemma_history_last(rows, page_id, file_id);
    let head = choose|i: int|
        0 <= i < rows.len() && #[trigger] rows[i] == history(rows, page_id, file_id).last() && rows[i].owned_by(
            page_id,
            file_id,
        ) && is_head_at(rows, i);
    assert(head != target);
    assert(rows[target].same_owner(rows[head]));
    assert(target < head);
    assert(rows[head].same_owner(rows[target]));
    assert(!is_head_at(rows, target));
    assert forall|i: int, j: int|
        0 <= i < j < after.len() && (#[trigger] after[i]).same_owner(
            #[trigger] after[j],
        ) implies after[i].revision_number < after[j].revision_number by {
        assert(rows[i].same_owner(rows[j]));
    }
    assert forall|i: int| 0 <= i < after.len() && is_head_at(after, i) implies (#[trigger] after[i]).hidden.len()
        == 0 by {
        assert forall|later: int| i < later < rows.len() implies !(#[trigger] rows[later]).same_owner(rows[i]) by {
            assert(!after[later].same_owner(after[i]));
        }
        assert(is_head_at(rows, i));
    }
    assert forall|i: int| 0 <= i < after.len() implies (#[trigger] after[i]).revision_id == i + 1 by {
        assert(rows[i].revision_id == i + 1);
    }
    assert forall|i: int| 0 <= i < after.len() implies 0 <= (#[trigger] after[i]).revision_number <= i by {
        assert(0 <= rows[i].revision_number <= i);
    }
    assert forall|i: int| 0 <= i < after.len() implies ((#[trigger] after[i]).revision_type
        == FileRevisionType::Create <==> after[i].revision_number == 0) by {
        assert(rows[i].revision_type == FileRevisionType::Create <==> rows[i].revision_number == 0);
    }
}

/// Assigns the number under which a pending revision is to be stored.
///
/// `previous` is what looking up the revision that the pending one follows
/// came to; it is not looked at for a first revision.
pub fn assign_revision_number(pending: &PendingRevision, previous: Option<&FileRevisionModel>) -> (r: Result<
    i32,
    ServiceError,
>)
    requires
        previous matches Some(row) ==> (pending.previous_revision_id is Some && row@.owned_by(
            pending.source_page_id,
            pending.file_id@,
        ) ==> row.revision_number < i32::MAX),
    ensures
        match number_decision(pending@, head_view(previous)) {
            Ok(number) => r == Ok::<i32, ServiceError>(number as i32),
            Err(e) => r == Err::<i32, ServiceError>(e),
        },
{
    let previous_id = match pending.previous_revision_id {
        Some(previous_id) => previous_id,
        None => {
            return match pending.revision_type {
                FileRevisionType::Create => Ok(0),
                _ => Err(ServiceError::Conflict),
            };
        },
    };
    let previous = match previous {
        Some(previous) => previous,
        None => {
            return Err(ServiceError::NotFound);
        },
    };
    let number = match next_revision_number(previous, pending.source_page_id, pending.file_id.as_str()) {
        Ok(number) => number,
        Err(e) => {
            return Err(e);
        },
    };
    match check_last_revision(previous, previous_id) {
        Ok(()) => {},
        Err(e) => {
            return Err(e);
        },
    }
    if !is_transition_allowed(previous.revision_type, pending.revision_type) {
        return Err(ServiceError::Conflict);
    }
    Ok(number)
}

/// Refuses a redaction whose target is the head.
///
/// The head of a file is what the file currently shows, so it can never be
/// hidden, not even in part.
pub fn check_redaction(head: &FileRevisionModel, revision_id: i64) -> (r: Result<(), ServiceError>)
    ensures
        head.revision_id != revision_id ==> r == Ok::<(), ServiceError>(()),
        head.revision_id == revision_id ==> r == Err::<(), ServiceError>(ServiceError::CannotHideLatestRevision),
{
    if revision_id == head.revision_id {
        Err(ServiceError::CannotHideLatestRevision)
    } else {
        Ok(())
    }
}

/// What a redaction request comes to, given the owner's head and the
/// revision that was found under the target's identifier.
///
/// `NotFound` if the owner has no head, `CannotHideLatestRevision` if the
/// target is the head, `NotFound` if no revision was found or the one
/// found does not belong to the owner.
pub open spec fn redaction_decision(
    head: Option<RevisionView>,
    target: Option<RevisionView>,
    page_id: i64,
    file_id: Seq<char>,
    revision_id: i64,
) -> Option<ServiceError> {
    match head {
        None => Some(ServiceError::NotFound),
        Some(latest) => if latest.revision_id == revision_id {
            Some(ServiceError::CannotHideLatestRevision)
        } else {
            match target {
                None => Some(ServiceError::NotFound),
                Some(row) => if row.revision_id != revision_id || !row.owned_by(page_id, file_id) {
                    Some(ServiceError::NotFound)
                } else {
                    None
                },
            }
        },
    }
}

/// Decides on a redaction, given the owner's head and the revision that
/// was found under the target's identifier.
pub fn plan_redaction(
    head: Option<&FileRevisionModel>,
    target: Option<&FileRevisionModel>,
    page_id: i64,
    file_id: &str,
    revision_id: i64,
) -> (r: Result<(), ServiceError>)
    ensures
        match redaction_decision(head_view(head), head_view(target), page_id, file_id@, revision_id) {
            Some(e) => r == Err::<(), ServiceError>(e),
            None => r == Ok::<(), ServiceError>(()),
        },
{
    let latest = match head {
        Some(latest) => latest,
        None => {
            return Err(ServiceError::NotFound);
        },
    };
    match check_redaction(latest, revision_id) {
        Ok(()) => {},
        Err(e) => {
            return Err(e);
        },
    }
    match target {
        Some(row) => {
            if row.revision_id == revision_id && row.is_owned_by(page_id, file_id) {
                Ok(())
            } else {
                Err(ServiceError::NotFound)
            }
        },
        None => Err(ServiceError::NotFound),
    }
}

/// Whether the head of the destination stands against a new row numbered
/// `number`: it does if it carries that number or a higher one.
pub open spec fn destination_ahead(destination: Option<RevisionView>, number: int) -> bool {
    destination matches Some(head) && head.revision_number >= number
}

/// In a well-formed log an owner holds a row numbered `number` or higher
/// exactly if its head is numbered so.
pub proof fn lemma_destination_head(rows: Seq<RevisionView>, page_id: i64, file_id: Seq<char>, number: int)
    requires
        log_wf(rows),
    ensures
        destination_taken(rows, page_id, file_id, number) == destination_ahead(
            head_of(rows, page_id, file_id),
            number,
        ),
{
    let lo = i32::MIN as int;
    let hi = i32::MAX as int;
    let h = history(rows, page_id, file_id);
    lemma_history_last(rows, page_id, file_id);
    lemma_history_rows(rows, page_id, file_id, lo, hi);
    lemma_history_ascending(rows, page_id, file_id, lo, hi);
    if destination_taken(rows, page_id, file_id, number) {
        let i = choose|i: int|
            0 <= i < rows.len() && (#[trigger] rows[i]).owned_by(page_id, file_id) && rows[i].revision_number
                >= number;
        assert(selected(rows[i], page_id, file_id, lo, hi));
        assert(h.contains(rows[i]));
        let k = choose|k: int| 0 <= k < h.len() && h[k] == rows[i];
        if k < h.len() - 1 {
            assert(h[k].revision_number < h[h.len() - 1].revision_number);
        }
    }
    if destination_ahead(head_of(rows, page_id, file_id), number) {
        let i = choose|i: int|
            0 <= i < rows.len() && #[trigger] rows[i] == h.last() && rows[i].owned_by(page_id, file_id)
                && is_head_at(rows, i);
        assert(rows[i].owned_by(page_id, file_id) && rows[i].revision_number >= number);
    }
}

/// Refuses a new row that cannot become the head of its destination.
///
/// `destination` is what looking up the head of the owner that the row is
/// to be stored under came to. A head numbered `number` or higher is a
/// `Conflict`: the new row would repeat a number of that owner or fall
/// behind its head.
pub fn check_destination(destination: Option<&FileRevisionModel>, number: i32) -> (r: Result<(), ServiceError>)
    ensures
        destination_ahead(head_view(destination), number as int) ==> r == Err::<(), ServiceError>(
            ServiceError::Conflict,
        ),
        !destination_ahead(head_view(destination), number as int) ==> r == Ok::<(), ServiceError>(()),
{
    match destination {
        Some(head) => {
            if head.revision_number >= number {
                Err(ServiceError::Conflict)
            } else {
                Ok(())
            }
        },
        None => Ok(()),
    }
}

/// Whether storing a pending revision can go ahead, and under which
/// number, given what three lookups came to: `previous`, the revision
/// found under the identifier of the one that the pending revision
/// follows; `source`, the head of the owner that the request addressed;
/// `destination`, the head of the owner that the row is to be stored
/// under.
///
/// After the number has been decided on, it is a `Conflict` if the
/// revision followed is not the head of its owner any more, or if the
/// destination's head is numbered as high as the new row or higher.
pub open spec fn commit_decision(
    pending: PendingView,
    previous: Option<RevisionView>,
    source: Option<RevisionView>,
    destination: Option<RevisionView>,
) -> Result<int, ServiceError> {
    match number_decision(pending, previous) {
        Err(e) => Err(e),
        Ok(number) => if superseded(pending, source) || destination_ahead(destination, number) {
            Err(ServiceError::Conflict)
        } else {
            Ok(number)
        },
    }
}

/// Whether the revision that a pending one follows is no longer the head
/// of the owner that the request addressed.
pub open spec fn superseded(pending: PendingView, source: Option<RevisionView>) -> bool {
    pending.previous_revision_id matches Some(previous_id) && !(source matches Some(head) && head.revision_id
        == previous_id)
}

/// Decides whether a pending revision can be stored, and under which
/// number, from what the three lookups came to.
///
/// Every check that stands between a pending revision and its row is made
/// here, so that whoever stores rows, in a log or in a table, runs the
/// same checks.
pub fn plan_commit(
    pending: &PendingRevision,
    previous: Option<&FileRevisionModel>,
    source: Option<&FileRevisionModel>,
    destination: Option<&FileRevisionModel>,
) -> (r: Result<i32, ServiceError>)
    requires
        previous matches Some(row) ==> (pending.previous_revision_id is Some && row@.owned_by(
            pending.source_page_id,
            pending.file_id@,
        ) ==> row.revision_number < i32::MAX),
    ensures
        match commit_decision(pending@, head_view(previous), head_view(source), head_view(destination)) {
            Ok(number) => r == Ok::<i32, ServiceError>(number as i32),
            Err(e) => r == Err::<i32, ServiceError>(e),
        },
{
    let number = match assign_revision_number(pending, previous) {
        Ok(number) => number,
        Err(e) => {
            return Err(e);
        },
    };
    match pending.previous_revision_id {
        Some(previous_id) => {
            let current = match source {
                Some(head) => check_last_revision(head, previous_id),
                None => Err(ServiceError::Conflict),
            };
            match current {
                Ok(()) => {},
                Err(e) => {
                    return Err(e);
                },
            }
        },
        None => {},
    }
    match check_destination(destination, number) {
        Ok(()) => Ok(number),
        Err(e) => Err(e),
    }
}

/// Whether the lifecycle allows `to` to follow `from`.
fn is_transition_allowed(from: FileRevisionType, to: FileRevisionType) -> (r: bool)
    ensures
        r == transition_allowed(from, to),
{
    let from_tombstone = match from {
        FileRevisionType::Delete => true,
        _ => false,
    };
    match to {
        FileRevisionType::Create => false,
        FileRevisionType::Update => !from_tombstone,
        FileRevisionType::Delete => !from_tombstone,
        FileRevisionType::Undelete => from_tombstone,
    }
}

impl FileRevisionService {
    /// Stores a pending revision, once its notice has been dealt with.
    ///
    /// `outdated` is what delivering the notice came to: a failure there
    /// aborts the mutation with the same error, and nothing is stored. The
    /// revision is stored only if the one it follows is still the head of
    /// its owner, so of two revisions decided on against the same head only
    /// the first can be stored. `created_at` is the time to record.
    ///
    /// An owner is a page together with a file, and that sets a limit to
    /// both guarantees. A revision that moves its file is stored under the
    /// destination page, numbered one more than the revision it follows:
    /// the owner it arrives at has a history that does not start at zero,
    /// and the owner it left keeps its head, so that a second revision
    /// anchored on that head is still accepted. Whoever moves files has to
    /// see to it that nothing addresses the page that a file has left.
    pub fn persist(
        store: &mut RevisionStore,
        pending: PendingRevision,
        outdated: Result<(), ServiceError>,
        created_at: i64,
    ) -> (r: Result<CreateFileRevisionOutput, ServiceError>)
        requires
            old(store).wf(),
            old(store)@.len() < i32::MAX,
        ensures
            final(store).wf(),
            gapless(old(store)@) && pending@.snapshot.page_id == pending@.source_page_id ==> gapless(final(store)@),
            match persist_error(old(store)@, pending@, outdated) {
                Some(e) => r == Err::<CreateFileRevisionOutput, ServiceError>(e) && final(store)@ == old(store)@,
                None => r == Ok::<CreateFileRevisionOutput, ServiceError>(
                    CreateFileRevisionOutput {
                        file_revision_id: (old(store)@.len() + 1) as i64,
                        file_revision_number: persisted_number(old(store)@, pending@) as i32,
                    },
                ) && final(store)@ == old(store)@.push(persisted_row(old(store)@, pending@, created_at)),
            },
    {
        match outdated {
            Ok(()) => {},
            Err(e) => {
                return Err(e);
            },
        }
        let n = store.len();
        let previous = match pending.previous_revision_id {
            Some(previous_id) if 1 <= previous_id && previous_id <= n as i64 => Some(
                store.row_at((previous_id - 1) as usize),
            ),
            _ => None,
        };
        let source = stored_head(store, pending.source_page_id, pending.file_id.as_str());
        let destination = stored_head(store, pending.snapshot.page_id, pending.file_id.as_str());
        proof {
            lemma_history_last(store@, pending.source_page_id, pending.file_id@);
            match number_decision(pending@, head_view(previous)) {
                Ok(number) => {
                    lemma_destination_head(store@, pending.snapshot.page_id, pending.file_id@, number);
                },
                Err(_) => {},
            }
        }
        let number = match plan_commit(&pending, previous, source, destination) {
            Ok(number) => number,
            Err(e) => {
                return Err(e);
            },
        };
        proof {
            lemma_persist_wf(store@, pending@, created_at);
            if gapless(store@) && pending@.snapshot.page_id == pending@.source_page_id {
                crate::revision_laws::law_persist_keeps_numbering(store@, pending@, created_at);
            }
        }
        let revision_id = (n + 1) as i64;
        let PendingRevision {
            previous_revision_id: _,
            source_page_id: _,
            file_id,
            revision_type,
            user_id,
            comments,
            snapshot,
            changes,
            notice: _,
        } = pending;
        let FileSnapshot { page_id, name, s3_hash, size_hint, mime_hint, licensing } = snapshot;
        let hidden: Vec<String> = Vec::new();
        assert(names_view(hidden@) =~= Seq::<Seq<char>>::empty());
        let row = FileRevisionModel {
            revision_id,
            revision_type,
            created_at,
            revision_number: number,
            file_id,
            page_id,
            user_id,
            name,
            s3_hash,
            mime_hint,
            size_hint,
            licensing,
            changes,
            comments,
            hidden,
        };
        store.append(row);
        Ok(CreateFileRevisionOutput { file_revision_id: revision_id, file_revision_number: number })
    }

    /// Replaces the redaction set of a revision that is not a head.
    ///
    /// Revisions are immutable entries of an append-only log; only the set
    /// of hidden fields can change, to cover spam and abuse. The head of a
    /// file is what the file currently shows, so it cannot be hidden: it
    /// has to be superseded first.
    pub fn update(
        store: &mut RevisionStore,
        page_id: i64,
        file_id: &str,
        revision_id: i64,
        input: UpdateFileRevision,
    ) -> (r: Result<(), ServiceError>)
        requires
            old(store).wf(),
        ensures
            final(store).wf(),
            gapless(old(store)@) ==> gapless(final(store)@),
            match redaction_error(old(store)@, page_id, file_id@, revision_id) {
                Some(e) => r == Err::<(), ServiceError>(e) && final(store)@ == old(store)@,
                None => r == Ok::<(), ServiceError>(()) && final(store)@ == redact(
                    old(store)@,
                    revision_id,
                    names_view(input.hidden@),
                ),
            },
    {
        let head = stored_head(store, page_id, file_id);
        let in_log = 1 <= revision_id && revision_id <= store.len() as i64;
        let found = if in_log {
            Some(store.row_at((revision_id - 1) as usize))
        } else {
            None
        };
        match plan_redaction(head, found, page_id, file_id, revision_id) {
            Ok(()) => {},
            Err(e) => {
                return Err(e);
            },
        }
        let target = (revision_id - 1) as usize;
        let UpdateFileRevision { user_id: _, hidden } = input;
        proof {
            lemma_redact_wf(store@, page_id, file_id@, revision_id, names_view(hidden@));
            if gapless(store@) {
                crate::revision_laws::law_redact_keeps_numbering(store@, revision_id, names_view(hidden@));
            }
        }
        store.set_hidden(target, hidden);
        Ok(())
    }
}

} // verus!

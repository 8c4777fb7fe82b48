use vstd::prelude::*;
use crate::change_set::{
    blob_changed, change_set, licensing_changed, name_changed, page_changed,
};
use crate::error::ServiceError;
use crate::provided_value::ProvidedValue;
use crate::revision_lifecycle::{first_outcome, guard_error, head_of, resurrection_outcome, update_outcome};
use crate::revision_persist::{lemma_persist_wf, persist_error, persisted_row, redaction_error};
use crate::revision_model::{FileField, FileRevisionType, RevisionView};
use crate::revision_store::{
    gapless, history, history_between, lemma_history_ascending, lemma_history_last, lemma_history_push, lemma_history_redact,
    lemma_history_rows, log_wf, redact,
};
use crate::revision_structs::{
    CreateFileRevision, CreateFirstFileRevision, CreateResurrectionFileRevision, PendingView,
};

verus! {

/// In a well-formed log, a stored revision named by its identifier is the
/// head of its owner exactly if it is the last row of the owner's history.
pub proof fn lemma_head_by_id(rows: Seq<RevisionView>, page_id: i64, file_id: Seq<char>, revision_id: i64)
    requires
        log_wf(rows),
        1 <= revision_id <= rows.len(),
        history(rows, page_id, file_id).len() > 0,
        history(rows, page_id, file_id).last().revision_id == revision_id,
    ensures
        history(rows, page_id, file_id).last() == rows[revision_id - 1],
{
    lemma_history_last(rows, page_id, file_id);
    let i = choose|i: int|
        0 <= i < rows.len() && #[trigger] rows[i] == history(rows, page_id, file_id).last() && rows[i].owned_by(
            page_id,
            file_id,
        );
    assert(rows[i].revision_id == i + 1);
}

/// An empty log numbers every owner's revisions without a gap.
pub proof fn law_empty_log_is_gapless()
    ensures
        gapless(Seq::<RevisionView>::empty()),
        log_wf(Seq::<RevisionView>::empty()),
{
}

/// Monotonic numbering, for storing a revision.
///
/// If every owner's revisions are numbered 0, 1, 2, ... and a revision is
/// stored on the page that its request addressed, every owner's revisions
/// are still numbered 0, 1, 2, ... afterwards. Requests that change
/// nothing and requests that are refused store no row, so however many of
/// them are interleaved, the numbering stays as it is.
pub proof fn law_persist_keeps_numbering(rows: Seq<RevisionView>, pending: PendingView, created_at: i64)
    requires
        log_wf(rows),
        rows.len() < i32::MAX,
        gapless(rows),
        persist_error(rows, pending, Ok(())).is_none(),
        pending.snapshot.page_id == pending.source_page_id,
    ensures
        gapless(rows.push(persisted_row(rows, pending, created_at))),
{
    let row = persisted_row(rows, pending, created_at);
    let after = rows.push(row);
    let lo = i32::MIN as int;
    let hi = i32::MAX as int;
    lemma_persist_wf(rows, pending, created_at);
    assert forall|page_id: i64, file_id: Seq<char>, k: int|
        0 <= k < history(after, page_id, file_id).len() implies (#[trigger] history(
        after,
        page_id,
        file_id,
    )[k]).revision_number == k by {
        let before = history(rows, page_id, file_id);
        lemma_history_push(rows, row, page_id, file_id, lo, hi);
        if k < before.len() {
            assert(history(after, page_id, file_id)[k] == before[k]);
        } else {
            assert(row.owned_by(page_id, file_id));
            assert(k == before.len());
            lemma_history_last(rows, page_id, file_id);
            match pending.previous_revision_id {
                None => {
                    if before.len() > 0 {
                        let i = choose|i: int|
                            0 <= i < rows.len() && #[trigger] rows[i] == before.last() && rows[i].owned_by(
                                page_id,
                                file_id,
                            );
                        assert(rows[i].owned_by(pending.snapshot.page_id, pending.file_id));
                        assert(rows[i].revision_number >= 0);
                    }
                },
                Some(previous_id) => {
                    assert(rows[previous_id - 1].owned_by(page_id, file_id));
                    lemma_head_by_id(rows, page_id, file_id, previous_id);
                    assert(before[before.len() - 1].revision_number == before.len() - 1);
                },
            }
        }
    }
}

/// Monotonic numbering, for redaction.
///
/// Replacing a redaction set changes no revision number: if every owner's
/// revisions were numbered 0, 1, 2, ... they still are.
pub proof fn law_redact_keeps_numbering(rows: Seq<RevisionView>, revision_id: i64, hidden: Seq<Seq<char>>)
    requires
        gapless(rows),
    ensures
        gapless(redact(rows, revision_id, hidden)),
{
    let after = redact(rows, revision_id, hidden);
    assert forall|page_id: i64, file_id: Seq<char>, k: int|
        0 <= k < history(after, page_id, file_id).len() implies (#[trigger] history(
        after,
        page_id,
        file_id,
    )[k]).revision_number == k by {
        lemma_history_redact(rows, revision_id, hidden, page_id, file_id, i32::MIN as int, i32::MAX as int);
        assert(history(rows, page_id, file_id)[k].revision_number == k);
    }
}

/// No repeats, whatever happened before.
///
/// In a well-formed log no two revisions of one owner carry the same
/// number, and the head carries the highest.
pub proof fn law_numbers_never_repeat(rows: Seq<RevisionView>, page_id: i64, file_id: Seq<char>, a: int, b: int)
    requires
        log_wf(rows),
        0 <= a < b < history(rows, page_id, file_id).len(),
    ensures
        history(rows, page_id, file_id)[a].revision_number < history(rows, page_id, file_id)[b].revision_number,
        history(rows, page_id, file_id)[b].revision_number <= history(rows, page_id, file_id).last().revision_number,
{
    lemma_history_ascending(rows, page_id, file_id, i32::MIN as int, i32::MAX as int);
    let h = history(rows, page_id, file_id);
    if b < h.len() - 1 {
        assert(h[b].revision_number < h[h.len() - 1].revision_number);
    }
}

/// In a well-formed log the head of an owner is never redacted.
pub proof fn law_head_is_never_redacted(rows: Seq<RevisionView>, page_id: i64, file_id: Seq<char>)
    requires
        log_wf(rows),
        history(rows, page_id, file_id).len() > 0,
    ensures
        history(rows, page_id, file_id).last().hidden.len() == 0,
{
    lemma_history_last(rows, page_id, file_id);
}

/// A revision that has just been stored is the head of the owner that it
/// was stored under.
pub proof fn law_persisted_revision_is_head(rows: Seq<RevisionView>, pending: PendingView, created_at: i64)
    requires
        persist_error(rows, pending, Ok(())).is_none(),
    ensures
        head_of(rows.push(persisted_row(rows, pending, created_at)), pending.snapshot.page_id, pending.file_id)
            == Some(persisted_row(rows, pending, created_at)),
{
    lemma_history_push(
        rows,
        persisted_row(rows, pending, created_at),
        pending.snapshot.page_id,
        pending.file_id,
        i32::MIN as int,
        i32::MAX as int,
    );
}

/// In a well-formed log at most one revision of an owner carries a given
/// number, so a revision number identifies a revision of its owner.
pub proof fn law_number_identifies_revision(
    rows: Seq<RevisionView>,
    page_id: i64,
    file_id: Seq<char>,
    revision_number: i32,
)
    requires
        log_wf(rows),
    ensures
        history_between(rows, page_id, file_id, revision_number as int, revision_number as int).len() <= 1,
{
    let at = revision_number as int;
    let h = history_between(rows, page_id, file_id, at, at);
    lemma_history_rows(rows, page_id, file_id, at, at);
    lemma_history_ascending(rows, page_id, file_id, at, at);
    if h.len() >= 2 {
        assert(h[0].revision_number < h[1].revision_number);
    }
}

/// The stored names of the fields are distinct: reading the name that a
/// field is stored under gives that field back.
pub proof fn law_field_names_round_trip(field: FileField)
    ensures
        FileField::named(field.spec_name()) == Some(field),
{
    reveal_strlit("page");
    reveal_strlit("name");
    reveal_strlit("blob");
    reveal_strlit("mime");
    reveal_strlit("licensing");
    assert("page"@[0] != "name"@[0]);
    assert("page"@[0] != "blob"@[0]);
    assert("page"@[0] != "mime"@[0]);
    assert("name"@[0] != "blob"@[0]);
    assert("name"@[0] != "mime"@[0]);
    assert("blob"@[0] != "mime"@[0]);
}

/// The stored names of the kinds of revision are distinct: reading the
/// name that a kind is stored under gives that kind back.
pub proof fn law_revision_type_names_round_trip(kind: FileRevisionType)
    ensures
        FileRevisionType::named(kind.spec_name()) == Some(kind),
{
    reveal_strlit("create");
    reveal_strlit("update");
    reveal_strlit("delete");
    reveal_strlit("undelete");
    assert("create"@[0] != "update"@[0]);
    assert("create"@[0] != "delete"@[0]);
    assert("update"@[0] != "delete"@[0]);
    assert("undelete"@[0] != "create"@[0]);
    assert("undelete"@[0] != "delete"@[0]);
    assert("undelete"@[1] != "update"@[1]);
}

/// Whether an update mentions no value that differs from the current one.
pub open spec fn restates(input: CreateFileRevision, current: RevisionView) -> bool {
    &&& input.body@.page_id matches ProvidedValue::Provided(page_id) ==> page_id == current.page_id
    &&& input.body@.name matches ProvidedValue::Provided(name) ==> name == current.name
    &&& input.body@.blob matches ProvidedValue::Provided(blob) ==> blob.s3_hash == current.s3_hash && blob.size_hint
        == current.size_hint && blob.mime_hint == current.mime_hint
    &&& input.body@.licensing matches ProvidedValue::Provided(licensing) ==> licensing == current.licensing
}

/// No-op suppression.
///
/// An update of a live file whose fields all equal those of the current
/// head is answered with "no change": no revision is pending, so there is
/// no notice to deliver and no row to store, and the log is as it was.
pub proof fn law_noop_update(rows: Seq<RevisionView>, input: CreateFileRevision, previous: RevisionView)
    requires
        guard_error(head_of(rows, input.page_id, input.file_id@), input.page_id, input.file_id@, previous).is_none(),
        !history(rows, input.page_id, input.file_id@).last().is_tombstone(),
        restates(input, history(rows, input.page_id, input.file_id@).last()),
    ensures
        update_outcome(rows, input, previous) == Ok::<Option<PendingView>, ServiceError>(None),
{
    let head = history(rows, input.page_id, input.file_id@).last();
    assert(change_set(head.snapshot(), input.body@) =~= Seq::<FileField>::empty());
}

/// Head redaction invariant: the head can never be hidden.
pub proof fn law_head_cannot_be_hidden(rows: Seq<RevisionView>, page_id: i64, file_id: Seq<char>)
    requires
        history(rows, page_id, file_id).len() > 0,
    ensures
        redaction_error(rows, page_id, file_id, history(rows, page_id, file_id).last().revision_id) == Some(
            ServiceError::CannotHideLatestRevision,
        ),
{
}

/// Head redaction invariant: any revision but the head can be hidden.
pub proof fn law_non_head_can_be_hidden(rows: Seq<RevisionView>, page_id: i64, file_id: Seq<char>, k: int)
    requires
        log_wf(rows),
        0 <= k < history(rows, page_id, file_id).len() - 1,
    ensures
        redaction_error(rows, page_id, file_id, history(rows, page_id, file_id)[k].revision_id).is_none(),
{
    let h = history(rows, page_id, file_id);
    lemma_history_rows(rows, page_id, file_id, i32::MIN as int, i32::MAX as int);
    lemma_history_ascending(rows, page_id, file_id, i32::MIN as int, i32::MAX as int);
    assert(rows.contains(h[k]));
    let i = choose|i: int| 0 <= i < rows.len() && rows[i] == h[k];
    assert(rows[i].revision_id == i + 1);
    assert(rows.contains(h[h.len() - 1]));
    let j = choose|j: int| 0 <= j < rows.len() && rows[j] == h[h.len() - 1];
    assert(rows[j].revision_id == j + 1);
    assert(h[k].revision_number < h[h.len() - 1].revision_number);
}

/// Head redaction invariant: hiding is idempotent.
///
/// A redaction that succeeded succeeds again with the same set, and the
/// second application leaves the log exactly as the first left it.
pub proof fn law_redaction_idempotent(
    rows: Seq<RevisionView>,
    page_id: i64,
    file_id: Seq<char>,
    revision_id: i64,
    hidden: Seq<Seq<char>>,
)
    requires
        redaction_error(rows, page_id, file_id, revision_id).is_none(),
    ensures
        redaction_error(redact(rows, revision_id, hidden), page_id, file_id, revision_id).is_none(),
        redact(redact(rows, revision_id, hidden), revision_id, hidden) == redact(rows, revision_id, hidden),
{
    let after = redact(rows, revision_id, hidden);
    lemma_history_redact(rows, revision_id, hidden, page_id, file_id, i32::MIN as int, i32::MAX as int);
    assert(redact(after, revision_id, hidden) =~= after);
}

/// Change-set ordering for updates.
///
/// An update that moves a file to another page and renames it, and
/// changes nothing else, lists exactly the page and then the name.
pub proof fn law_page_before_name(input: CreateFileRevision, current: RevisionView)
    requires
        page_changed(current.snapshot(), input.body@),
        name_changed(current.snapshot(), input.body@),
        !blob_changed(current.snapshot(), input.body@),
        !licensing_changed(current.snapshot(), input.body@),
    ensures
        change_set(current.snapshot(), input.body@) == seq![FileField::Page, FileField::Name],
{
    assert(change_set(current.snapshot(), input.body@) =~= seq![FileField::Page, FileField::Name]);
}

/// A first revision changed everything: whatever the values, it lists
/// the page, the name, the content reference and the licensing, in that
/// order, and nothing else.
pub proof fn law_first_revision_lists_every_field(rows: Seq<RevisionView>, input: CreateFirstFileRevision)
    requires
        first_outcome(rows, input) is Ok,
    ensures
        first_outcome(rows, input)->Ok_0.changes == seq![
            FileField::Page,
            FileField::Name,
            FileField::Blob,
            FileField::Licensing,
        ],
        first_outcome(rows, input)->Ok_0.changes == change_set_order(),
{
}

/// The fields that a change-set can name, in the order in which it names
/// them.
pub open spec fn change_set_order() -> Seq<FileField> {
    seq![FileField::Page, FileField::Name, FileField::Blob, FileField::Licensing]
}

/// Whether an update changes the given field. The MIME hint is part of the
/// content reference and never counts as changed by itself.
pub open spec fn field_changed(current: RevisionView, input: CreateFileRevision, field: FileField) -> bool {
    match field {
        FileField::Page => page_changed(current.snapshot(), input.body@),
        FileField::Name => name_changed(current.snapshot(), input.body@),
        FileField::Blob => blob_changed(current.snapshot(), input.body@),
        FileField::Licensing => licensing_changed(current.snapshot(), input.body@),
        FileField::Mime => false,
    }
}

/// Whatever an update changes, its change-set is what is left of the
/// fixed order when the unchanged fields are struck out: no field is
/// named twice, none out of order, and the MIME hint never by itself.
pub proof fn law_change_set_follows_order(current: RevisionView, input: CreateFileRevision)
    ensures
        change_set(current.snapshot(), input.body@) == change_set_order().filter(
            |field: FileField| field_changed(current, input, field),
        ),
{
    reveal_with_fuel(Seq::filter, 5);
    let keep = |field: FileField| field_changed(current, input, field);
    let order = change_set_order();
    assert(order.drop_last() =~= seq![FileField::Page, FileField::Name, FileField::Blob]);
    assert(order.drop_last().drop_last() =~= seq![FileField::Page, FileField::Name]);
    assert(order.drop_last().drop_last().drop_last() =~= seq![FileField::Page]);
    assert(order.drop_last().drop_last().drop_last().drop_last() =~= Seq::<FileField>::empty());
    assert(change_set(current.snapshot(), input.body@) =~= order.filter(keep));
}

/// Change-set ordering for restorations.
///
/// A restoration onto another page under another name lists exactly the
/// page and then the name.
pub proof fn law_restored_page_before_name(
    rows: Seq<RevisionView>,
    input: CreateResurrectionFileRevision,
    previous: RevisionView,
)
    requires
        resurrection_outcome(rows, input, previous) is Ok,
        input.new_page_id matches Some(page_id) && page_id != history(
            rows,
            input.page_id,
            input.file_id@,
        ).last().page_id,
        input.new_name matches Some(name) && name@ != history(rows, input.page_id, input.file_id@).last().name,
    ensures
        resurrection_outcome(rows, input, previous)->Ok_0.changes == seq![FileField::Page, FileField::Name],
{
    assert(resurrection_outcome(rows, input, previous)->Ok_0.changes =~= seq![FileField::Page, FileField::Name]);
}

/// Optimistic lock: of two revisions that follow the same head, only the
/// first can be stored.
///
/// Once the first is stored on the page that both requests addressed, the
/// second is refused with `Conflict`, which stores no row.
pub proof fn law_first_writer_wins(
    rows: Seq<RevisionView>,
    first: PendingView,
    second: PendingView,
    created_at: i64,
)
    requires
        log_wf(rows),
        rows.len() < i32::MAX,
        persist_error(rows, first, Ok(())).is_none(),
        first.previous_revision_id is Some,
        second.previous_revision_id == first.previous_revision_id,
        second.source_page_id == first.source_page_id,
        second.file_id == first.file_id,
        first.snapshot.page_id == first.source_page_id,
    ensures
        persist_error(rows.push(persisted_row(rows, first, created_at)), second, Ok(())) == Some(ServiceError::Conflict),
{
    let row = persisted_row(rows, first, created_at);
    let after = rows.push(row);
    let previous_id = first.previous_revision_id->Some_0;
    lemma_history_push(rows, row, first.source_page_id, first.file_id, i32::MIN as int, i32::MAX as int);
    assert(after[previous_id - 1] == rows[previous_id - 1]);
    assert(history(after, second.source_page_id, second.file_id).last() == row);
}

/// Optimistic lock: a request that is anchored on a superseded head is
/// refused.
///
/// Once a revision is stored on the page that its request addressed, an
/// update that still names the old head as the one last read is answered
/// with `Conflict`.
pub proof fn law_stale_update_conflicts(
    rows: Seq<RevisionView>,
    first: PendingView,
    created_at: i64,
    input: CreateFileRevision,
    previous: RevisionView,
)
    requires
        log_wf(rows),
        rows.len() < i32::MAX,
        persist_error(rows, first, Ok(())).is_none(),
        first.previous_revision_id == Some(previous.revision_id),
        first.snapshot.page_id == first.source_page_id,
        input.page_id == first.source_page_id,
        input.file_id@ == first.file_id,
        previous.owned_by(input.page_id, input.file_id@),
    ensures
        update_outcome(rows.push(persisted_row(rows, first, created_at)), input, previous) == Err::<
            Option<PendingView>,
            ServiceError,
        >(ServiceError::Conflict),
{
    let row = persisted_row(rows, first, created_at);
    let after = rows.push(row);
    lemma_history_push(rows, row, input.page_id, input.file_id@, i32::MIN as int, i32::MAX as int);
    assert(history(after, input.page_id, input.file_id@).last() == row);
}

/// The limit of the optimistic lock and of gapless numbering: a move.
///
/// A revision that is stored under another page than the one its request
/// addressed leaves the history of that page exactly as it was. The old
/// head stays the head there, which is why a second revision anchored on
/// it is not refused as stale; and the row that arrives under the
/// destination is numbered one more than the revision it follows, not by
/// its place in the destination's history.
pub proof fn law_move_leaves_old_history(rows: Seq<RevisionView>, pending: PendingView, created_at: i64)
    requires
        log_wf(rows),
        rows.len() < i32::MAX,
        persist_error(rows, pending, Ok(())).is_none(),
        pending.snapshot.page_id != pending.source_page_id,
    ensures
        history(rows.push(persisted_row(rows, pending, created_at)), pending.source_page_id, pending.file_id)
            == history(rows, pending.source_page_id, pending.file_id),
        head_of(rows.push(persisted_row(rows, pending, created_at)), pending.source_page_id, pending.file_id)
            == head_of(rows, pending.source_page_id, pending.file_id),
        pending.previous_revision_id matches Some(previous_id) ==> persisted_row(
            rows,
            pending,
            created_at,
        ).revision_number == rows[previous_id - 1].revision_number + 1,
{
    lemma_history_push(
        rows,
        persisted_row(rows, pending, created_at),
        pending.source_page_id,
        pending.file_id,
        i32::MIN as int,
        i32::MAX as int,
    );
    lemma_persist_wf(rows, pending, created_at);
}

/// Existence: an owner without rows has no head and no count, and after
/// its first revision is stored it has exactly one row.
pub proof fn law_count_after_create(rows: Seq<RevisionView>, pending: PendingView, created_at: i64)
    requires
        log_wf(rows),
        persist_error(rows, pending, Ok(())).is_none(),
        pending.previous_revision_id is None,
    ensures
        history(rows, pending.snapshot.page_id, pending.file_id).len() == 0,
        history(rows.push(persisted_row(rows, pending, created_at)), pending.snapshot.page_id, pending.file_id).len()
            == 1,
        persisted_row(rows, pending, created_at).revision_number == 0,
{
    let page_id = pending.snapshot.page_id;
    let file_id = pending.file_id;
    let row = persisted_row(rows, pending, created_at);
    lemma_history_last(rows, page_id, file_id);
    lemma_history_push(rows, row, page_id, file_id, i32::MIN as int, i32::MAX as int);
    assert forall|i: int| 0 <= i < rows.len() implies !(#[trigger] rows[i]).owned_by(page_id, file_id) by {
        assert(rows[i].revision_number >= 0);
    }
}

} // verus!

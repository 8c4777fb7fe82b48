use vstd::prelude::*;
use crate::revision_model::{copy_fields, names_view, FileRevisionModel, FileRevisionType, RevisionView};

verus! {

/// Whether a row belongs to the owner `(page_id, file_id)` and is numbered
/// between `lo` and `hi`, both included.
pub open spec fn selected(row: RevisionView, page_id: i64, file_id: Seq<char>, lo: int, hi: int) -> bool {
    row.owned_by(page_id, file_id) && lo <= row.revision_number <= hi
}

/// The rows of one owner that are numbered between `lo` and `hi`, in the
/// order in which they were stored.
pub open spec fn history_between(
    rows: Seq<RevisionView>,
    page_id: i64,
    file_id: Seq<char>,
    lo: int,
    hi: int,
) -> Seq<RevisionView>
    decreases rows.len(),
{
    if rows.len() == 0 {
        Seq::empty()
    } else {
        let earlier = history_between(rows.drop_last(), page_id, file_id, lo, hi);
        if selected(rows.last(), page_id, file_id, lo, hi) {
            earlier.push(rows.last())
        } else {
            earlier
        }
    }
}

/// All rows of one owner, in the order in which they were stored.
pub open spec fn history(rows: Seq<RevisionView>, page_id: i64, file_id: Seq<char>) -> Seq<RevisionView> {
    history_between(rows, page_id, file_id, i32::MIN as int, i32::MAX as int)
}

/// Whether no row stored after the one at `index` has the same owner.
pub open spec fn is_head_at(rows: Seq<RevisionView>, index: int) -> bool {
    forall|later: int| index < later < rows.len() ==> !(#[trigger] rows[later]).same_owner(rows[index])
}

/// Whether the rows of each owner are stored in strictly ascending order
/// of revision number.
pub open spec fn owner_ordered(rows: Seq<RevisionView>) -> bool {
    forall|i: int, j: int|
        0 <= i < j < rows.len() && (#[trigger] rows[i]).same_owner(#[trigger] rows[j])
            ==> rows[i].revision_number < rows[j].revision_number
}

/// The invariant of a revision log.
///
/// Identifiers count up from one in storage order. Within one owner the
/// revision numbers rise strictly, so each owner has exactly one row with
/// the highest number, its head. A head is never redacted. The first
/// revisions, and only they, are numbered zero.
pub open spec fn log_wf(rows: Seq<RevisionView>) -> bool {
    &&& rows.len() <= i32::MAX
    &&& forall|i: int| 0 <= i < rows.len() ==> (#[trigger] rows[i]).revision_id == i + 1
    &&& forall|i: int| 0 <= i < rows.len() ==> 0 <= (#[trigger] rows[i]).revision_number <= i
    &&& owner_ordered(rows)
    &&& forall|i: int| 0 <= i < rows.len() && is_head_at(rows, i) ==> (#[trigger] rows[i]).hidden.len() == 0
    &&& forall|i: int|
        0 <= i < rows.len() ==> ((#[trigger] rows[i]).revision_type == FileRevisionType::Create
            <==> rows[i].revision_number == 0)
}

/// Whether every owner's revisions are numbered 0, 1, 2, ... in storage
/// order, without a gap or a repeat.
pub open spec fn gapless(rows: Seq<RevisionView>) -> bool {
    forall|page_id: i64, file_id: Seq<char>, k: int|
        0 <= k < history(rows, page_id, file_id).len() ==> (#[trigger] history(
            rows,
            page_id,
            file_id,
        )[k]).revision_number == k
}

/// The log with the redaction set of the row identified by `revision_id`
/// replaced, and nothing else touched.
pub open spec fn redact(rows: Seq<RevisionView>, revision_id: i64, hidden: Seq<Seq<char>>) -> Seq<RevisionView> {
    Seq::new(
        rows.len(),
        |i: int|
            if rows[i].revision_id == revision_id {
                rows[i].with_hidden(hidden)
            } else {
                rows[i]
            },
    )
}

/// Extending a log by one row extends the selected history by that row if
/// it is selected, and leaves it alone otherwise.
pub proof fn lemma_history_push(
    rows: Seq<RevisionView>,
    row: RevisionView,
    page_id: i64,
    file_id: Seq<char>,
    lo: int,
    hi: int,
)
    ensures
        history_between(rows.push(row), page_id, file_id, lo, hi) == if selected(row, page_id, file_id, lo, hi) {
            history_between(rows, page_id, file_id, lo, hi).push(row)
        } else {
            history_between(rows, page_id, file_id, lo, hi)
        },
{
    assert(rows.push(row).drop_last() =~= rows);
}

/// The selected history of the first `i + 1` rows, from that of the first
/// `i`.
pub proof fn lemma_history_step(
    rows: Seq<RevisionView>,
    i: int,
    page_id: i64,
    file_id: Seq<char>,
    lo: int,
    hi: int,
)
    requires
        0 <= i < rows.len(),
    ensures
        history_between(rows.take(i + 1), page_id, file_id, lo, hi) == if selected(
            rows[i],
            page_id,
            file_id,
            lo,
            hi,
        ) {
            history_between(rows.take(i), page_id, file_id, lo, hi).push(rows[i])
        } else {
            history_between(rows.take(i), page_id, file_id, lo, hi)
        },
{
    assert(rows.take(i + 1) =~= rows.take(i).push(rows[i]));
    lemma_history_push(rows.take(i), rows[i], page_id, file_id, lo, hi);
}

/// Every row of a selected history is a selected row of the log, and the
/// history keeps the storage order: its `k`-th row is stored at an index of
/// at least `k`, after the rows before it.
pub proof fn lemma_history_rows(
    rows: Seq<RevisionView>,
    page_id: i64,
    file_id: Seq<char>,
    lo: int,
    hi: int,
)
    ensures
        history_between(rows, page_id, file_id, lo, hi).len() <= rows.len(),
        forall|k: int|
            0 <= k < history_between(rows, page_id, file_id, lo, hi).len() ==> selected(
                #[trigger] history_between(rows, page_id, file_id, lo, hi)[k],
                page_id,
                file_id,
                lo,
                hi,
            ) && rows.contains(history_between(rows, page_id, file_id, lo, hi)[k]),
        forall|i: int|
            0 <= i < rows.len() && selected(#[trigger] rows[i], page_id, file_id, lo, hi)
                ==> history_between(rows, page_id, file_id, lo, hi).contains(rows[i]),
    decreases rows.len(),
{
    let h = history_between(rows, page_id, file_id, lo, hi);
    if rows.len() > 0 {
        let front = rows.drop_last();
        let e = history_between(front, page_id, file_id, lo, hi);
        lemma_history_rows(front, page_id, file_id, lo, hi);
        assert forall|k: int| 0 <= k < h.len() implies selected(#[trigger] h[k], page_id, file_id, lo, hi)
            && rows.contains(h[k]) by {
            if k < e.len() {
                assert(h[k] == e[k]);
                assert(front.contains(e[k]));
                let i = choose|i: int| 0 <= i < front.len() && front[i] == e[k];
                assert(rows[i] == e[k]);
            } else {
                assert(h[k] == rows.last());
                assert(rows[rows.len() - 1] == rows.last());
            }
        }
        assert forall|i: int|
            0 <= i < rows.len() && selected(#[trigger] rows[i], page_id, file_id, lo, hi) implies h.contains(
            rows[i],
        ) by {
            if i < rows.len() - 1 {
                assert(front[i] == rows[i]);
                assert(e.contains(front[i]));
                let k = choose|k: int| 0 <= k < e.len() && e[k] == front[i];
                assert(h[k] == rows[i]);
            } else {
                assert(h[h.len() - 1] == rows[i]);
            }
        }
    }
}

/// If the rows of each owner are stored in ascending order of revision
/// number, every selected history is strictly ascending too.
pub proof fn lemma_history_ascending(
    rows: Seq<RevisionView>,
    page_id: i64,
    file_id: Seq<char>,
    lo: int,
    hi: int,
)
    requires
        owner_ordered(rows),
    ensures
        forall|a: int, b: int|
            0 <= a < b < history_between(rows, page_id, file_id, lo, hi).len() ==> (#[trigger] history_between(
                rows,
                page_id,
                file_id,
                lo,
                hi,
            )[a]).revision_number < (#[trigger] history_between(rows, page_id, file_id, lo, hi)[b]).revision_number,
    decreases rows.len(),
{
    let h = history_between(rows, page_id, file_id, lo, hi);
    if rows.len() > 0 {
        let front = rows.drop_last();
        let e = history_between(front, page_id, file_id, lo, hi);
        assert(owner_ordered(front)) by {
            assert forall|i: int, j: int|
                0 <= i < j < front.len() && (#[trigger] front[i]).same_owner(
                    #[trigger] front[j],
                ) implies front[i].revision_number < front[j].revision_number by {
                assert(rows[i].same_owner(rows[j]));
            }
        }
        lemma_history_ascending(front, page_id, file_id, lo, hi);
        lemma_history_rows(front, page_id, file_id, lo, hi);
        assert forall|a: int, b: int| 0 <= a < b < h.len() implies (#[trigger] h[a]).revision_number < (
        #[trigger] h[b]).revision_number by {
            if b < e.len() {
                assert(h[a] == e[a] && h[b] == e[b]);
            } else {
                assert(h[b] == rows.last());
                assert(h[a] == e[a]);
                assert(front.contains(e[a]));
                let i = choose|i: int| 0 <= i < front.len() && front[i] == e[a];
                assert(rows[i] == e[a]);
                assert(rows[i].same_owner(rows[rows.len() - 1]));
            }
        }
    }
}

/// The last row of an owner's history is stored at the owner's head index,
/// and an owner has no history exactly when no row belongs to it.
pub proof fn lemma_history_last(rows: Seq<RevisionView>, page_id: i64, file_id: Seq<char>)
    ensures
        history(rows, page_id, file_id).len() > 0 ==> exists|i: int|
            0 <= i < rows.len() && #[trigger] rows[i] == history(rows, page_id, file_id).last()
                && rows[i].owned_by(page_id, file_id) && is_head_at(rows, i),
        history(rows, page_id, file_id).len() == 0 <==> forall|i: int|
            0 <= i < rows.len() ==> !(#[trigger] rows[i]).owned_by(page_id, file_id),
    decreases rows.len(),
{
    let lo = i32::MIN as int;
    let hi = i32::MAX as int;
    let h = history(rows, page_id, file_id);
    if rows.len() > 0 {
        let front = rows.drop_last();
        let n = rows.len() - 1;
        lemma_history_last(front, page_id, file_id);
        assert forall|i: int| 0 <= i < front.len() implies front[i] == rows[i] by {}
        if rows.last().owned_by(page_id, file_id) {
            assert(selected(rows.last(), page_id, file_id, lo, hi));
            assert(rows[n] == h.last());
            assert(is_head_at(rows, n));
            assert(rows[n].owned_by(page_id, file_id));
        } else {
            assert(h == history(front, page_id, file_id));
            if h.len() > 0 {
                let i = choose|i: int|
                    0 <= i < front.len() && #[trigger] front[i] == h.last() && front[i].owned_by(page_id, file_id)
                        && is_head_at(front, i);
                assert(rows[i] == h.last());
                assert forall|later: int| i < later < rows.len() implies !(#[trigger] rows[later]).same_owner(
                    rows[i],
                ) by {
                    if later < n {
                        assert(front[later] == rows[later]);
                    }
                }
                assert(is_head_at(rows, i));
            } else {
                assert forall|i: int| 0 <= i < rows.len() implies !(#[trigger] rows[i]).owned_by(
                    page_id,
                    file_id,
                ) by {
                    if i < n {
                        assert(front[i] == rows[i]);
                    }
                }
            }
        }
    }
}

/// Redacting a row of the log redacts that row in every selected history
/// and changes nothing else about it.
pub proof fn lemma_history_redact(
    rows: Seq<RevisionView>,
    revision_id: i64,
    hidden: Seq<Seq<char>>,
    page_id: i64,
    file_id: Seq<char>,
    lo: int,
    hi: int,
)
    ensures
        history_between(redact(rows, revision_id, hidden), page_id, file_id, lo, hi) == redact(
            history_between(rows, page_id, file_id, lo, hi),
            revision_id,
            hidden,
        ),
    decreases rows.len(),
{
    let after = redact(rows, revision_id, hidden);
    let h = history_between(rows, page_id, file_id, lo, hi);
    if rows.len() > 0 {
        let front = rows.drop_last();
        lemma_history_redact(front, revision_id, hidden, page_id, file_id, lo, hi);
        assert(after.drop_last() =~= redact(front, revision_id, hidden));
        let e = history_between(front, page_id, file_id, lo, hi);
        if selected(rows.last(), page_id, file_id, lo, hi) {
            assert(redact(e.push(rows.last()), revision_id, hidden) =~= redact(e, revision_id, hidden).push(
                after.last(),
            ));
        }
    } else {
        assert(redact(h, revision_id, hidden) =~= Seq::<RevisionView>::empty());
    }
}

/// An append-only log of file revisions, held in memory.
///
/// Rows are only ever added at the end, and only the redaction set of a
/// stored row can change.
#[derive(Debug)]
pub struct RevisionStore {
    rows: Vec<FileRevisionModel>,
}

impl View for RevisionStore {
    type V = Seq<RevisionView>;

    closed spec fn view(&self) -> Seq<RevisionView> {
        Seq::new(self.rows@.len(), |i: int| self.rows@[i]@)
    }
}

impl RevisionStore {
    /// Whether the log satisfies its invariant.
    pub open spec fn wf(&self) -> bool {
        log_wf(self@)
    }

    /// An empty log.
    pub fn new() -> (r: RevisionStore)
        ensures
            r@ == Seq::<RevisionView>::empty(),
            r.wf(),
    {
        let r = RevisionStore { rows: Vec::new() };
        assert(r@ =~= Seq::<RevisionView>::empty());
        r
    }

    /// The number of rows in the log, over all owners.
    pub fn len(&self) -> (n: usize)
        ensures
            n == self@.len(),
    {
        self.rows.len()
    }

    /// Whether the log can take another row.
    pub fn has_room(&self) -> (r: bool)
        ensures
            r == (self@.len() < i32::MAX),
    {
        self.rows.len() < 0x7fff_ffff
    }

    /// The row stored at `index`, if there is one.
    pub fn row(&self, index: usize) -> (r: Option<&FileRevisionModel>)
        ensures
            index < self@.len() ==> r.is_some() && r.unwrap()@ == self@[index as int],
            index >= self@.len() ==> r.is_none(),
    {
        if index < self.rows.len() {
            Some(&self.rows[index])
        } else {
            None
        }
    }

    /// The row stored at `index`.
    pub(crate) fn row_at(&self, index: usize) -> (r: &FileRevisionModel)
        requires
            index < self@.len(),
        ensures
            r@ == self@[index as int],
    {
        &self.rows[index]
    }

    /// Adds a row at the end of the log.
    pub(crate) fn append(&mut self, row: FileRevisionModel)
        ensures
            final(self)@ == old(self)@.push(row@),
    {
        self.rows.push(row);
        assert(self@ =~= old(self)@.push(row@));
    }

    /// Replaces the redaction set of the row stored at `index`.
    pub(crate) fn set_hidden(&mut self, index: usize, hidden: Vec<String>)
        requires
            index < old(self)@.len(),
        ensures
            final(self)@ == old(self)@.update(index as int, old(self)@[index as int].with_hidden(names_view(hidden@))),
    {
        let current = &self.rows[index];
        let replaced = FileRevisionModel {
            revision_id: current.revision_id,
            revision_type: current.revision_type,
            created_at: current.created_at,
            revision_number: current.revision_number,
            file_id: current.file_id.clone(),
            page_id: current.page_id,
            user_id: current.user_id,
            name: current.name.clone(),
            s3_hash: crate::revision_model::copy_bytes(&current.s3_hash),
            mime_hint: current.mime_hint.clone(),
            size_hint: current.size_hint,
            licensing: current.licensing.clone(),
            changes: copy_fields(&current.changes),
            comments: current.comments.clone(),
            hidden,
        };
        self.rows.set(index, replaced);
        assert(self@ =~= old(self)@.update(index as int, old(self)@[index as int].with_hidden(names_view(hidden@))));
    }
}

} // verus!

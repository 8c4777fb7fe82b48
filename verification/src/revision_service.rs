use vstd::prelude::*;
use crate::error::ServiceError;
use crate::provided_value::FetchDirection;
use crate::revision_model::{FileRevisionModel, RevisionView};
use crate::revision_store::{
    history, history_between, lemma_history_ascending, lemma_history_step, selected, RevisionStore,
};

verus! {

/// The operations of the file revision log.
#[derive(Debug)]
pub struct FileRevisionService;

/// How many revisions a file has, and the numbers of the first and the
/// last of them.
#[derive(Debug, Clone, Copy, PartialEq, Eq, Structural)]
pub struct RevisionCountOutput {
    pub revision_count: i32,
    pub first_revision: i32,
    pub last_revision: i32,
}

/// The mathematical values of a list of rows.
pub open spec fn row_views(rows: Seq<FileRevisionModel>) -> Seq<RevisionView> {
    Seq::new(rows.len(), |i: int| rows[i]@)
}

/// The first `limit` items of a sequence, or all of it if it has fewer.
pub open spec fn capped(rows: Seq<RevisionView>, limit: int) -> Seq<RevisionView> {
    if 0 <= limit < rows.len() {
        rows.take(limit)
    } else {
        rows
    }
}

/// The anchor of a ranged read: a negative revision number stands for the
/// highest one that can be represented, which is to say the most recent.
pub open spec fn range_anchor(revision_number: i32) -> int {
    if revision_number >= 0 {
        revision_number as int
    } else {
        i32::MAX as int
    }
}

/// The lowest revision number that a ranged read admits.
pub open spec fn range_low(revision_number: i32, direction: FetchDirection) -> int {
    match direction {
        FetchDirection::Before => i32::MIN as int,
        FetchDirection::After => range_anchor(revision_number),
    }
}

/// The highest revision number that a ranged read admits.
pub open spec fn range_high(revision_number: i32, direction: FetchDirection) -> int {
    match direction {
        FetchDirection::Before => range_anchor(revision_number),
        FetchDirection::After => i32::MAX as int,
    }
}

/// What a ranged read returns: the owner's rows on the asked side of the
/// anchor, in storage order, cut off after `limit` rows.
pub open spec fn range_rows(
    rows: Seq<RevisionView>,
    page_id: i64,
    file_id: Seq<char>,
    revision_number: i32,
    direction: FetchDirection,
    limit: u64,
) -> Seq<RevisionView> {
    capped(
        history_between(
            rows,
            page_id,
            file_id,
            range_low(revision_number, direction),
            range_high(revision_number, direction),
        ),
        limit as int,
    )
}

/// The revision numbers that a ranged read admits, lowest and highest.
///
/// A negative `revision_number` stands for the most recent revision: the
/// anchor is then the highest number that can be represented.
pub fn range_bounds(revision_number: i32, revision_direction: FetchDirection) -> (r: (i32, i32))
    ensures
        r.0 == range_low(revision_number, revision_direction),
        r.1 == range_high(revision_number, revision_direction),
{
    let anchor: i32 = if revision_number >= 0 {
        revision_number
    } else {
        i32::MAX
    };
    match revision_direction {
        FetchDirection::Before => (i32::MIN, anchor),
        FetchDirection::After => (anchor, i32::MAX),
    }
}

/// Turns a number of rows into a count of revisions.
///
/// Every file has at least one revision, so an owner without rows does not
/// exist: zero rows are answered with `NotFound`, never with a count of
/// zero.
pub fn count_from_rows(row_count: u64) -> (r: Result<i32, ServiceError>)
    requires
        row_count <= i32::MAX,
    ensures
        row_count == 0 ==> r == Err::<i32, ServiceError>(ServiceError::NotFound),
        row_count > 0 ==> r == Ok::<i32, ServiceError>(row_count as i32),
{
    if row_count == 0 {
        Err(ServiceError::NotFound)
    } else {
        Ok(row_count as i32)
    }
}

/// Says where the numbering of a file's revisions starts and ends.
///
/// The numbering starts at zero, so it ends one below the count.
pub fn summarize_count(revision_count: i32) -> (r: RevisionCountOutput)
    requires
        revision_count > 0,
    ensures
        r == (RevisionCountOutput { revision_count, first_revision: 0, last_revision: (revision_count - 1) as i32 }),
{
    RevisionCountOutput { revision_count, first_revision: 0, last_revision: revision_count - 1 }
}

/// The index at which an owner's head is stored, if the owner has rows.
pub(crate) fn head_index(store: &RevisionStore, page_id: i64, file_id: &str) -> (r: Option<usize>)
    ensures
        match r {
            Some(index) => index < store@.len() && history(store@, page_id, file_id@).len() > 0 && store@[index as int]
                == history(store@, page_id, file_id@).last(),
            None => history(store@, page_id, file_id@).len() == 0,
        },
{
    let ghost lo = i32::MIN as int;
    let ghost hi = i32::MAX as int;
    let mut best: Option<usize> = None;
    let mut i: usize = 0;
    let n = store.len();
    while i < n
        invariant
            i <= n,
            n == store@.len(),
            lo == i32::MIN as int,
            hi == i32::MAX as int,
            match best {
                Some(index) => index < i && history_between(store@.take(i as int), page_id, file_id@, lo, hi).len()
                    > 0 && store@[index as int] == history_between(
                    store@.take(i as int),
                    page_id,
                    file_id@,
                    lo,
                    hi,
                ).last(),
                None => history_between(store@.take(i as int), page_id, file_id@, lo, hi).len() == 0,
            },
        decreases n - i,
    {
        proof {
            lemma_history_step(store@, i as int, page_id, file_id@, lo, hi);
        }
        if store.row_at(i).is_owned_by(page_id, file_id) {
            best = Some(i);
        }
        i += 1;
    }
    assert(store@.take(n as int) =~= store@);
    best
}

impl FileRevisionService {
    /// The head of an owner: its most recent revision.
    ///
    /// Fails with `NotFound` exactly when the owner has no rows.
    pub fn get_latest(store: &RevisionStore, page_id: i64, file_id: &str) -> (r: Result<FileRevisionModel, ServiceError>)
        ensures
            match r {
                Ok(head) => history(store@, page_id, file_id@).len() > 0 && head@ == history(
                    store@,
                    page_id,
                    file_id@,
                ).last(),
                Err(e) => e == ServiceError::NotFound && history(store@, page_id, file_id@).len() == 0,
            },
    {
        match head_index(store, page_id, file_id) {
            Some(index) => Ok(store.row_at(index).duplicate()),
            None => Err(ServiceError::NotFound),
        }
    }

    /// The revision of an owner that carries the given number, if any.
    ///
    /// In a well-formed log at most one row of an owner carries a given
    /// number, so the result is that row.
    pub fn get_optional(store: &RevisionStore, page_id: i64, file_id: &str, revision_number: i32) -> (r: Option<
        FileRevisionModel,
    >)
        ensures
            match r {
                Some(row) => history_between(
                    store@,
                    page_id,
                    file_id@,
                    revision_number as int,
                    revision_number as int,
                ).len() > 0 && row@ == history_between(
                    store@,
                    page_id,
                    file_id@,
                    revision_number as int,
                    revision_number as int,
                ).first(),
                None => history_between(store@, page_id, file_id@, revision_number as int, revision_number as int).len()
                    == 0,
            },
    {
        let ghost at = revision_number as int;
        let mut i: usize = 0;
        let n = store.len();
        while i < n
            invariant
                i <= n,
                n == store@.len(),
                at == revision_number as int,
                history_between(store@.take(i as int), page_id, file_id@, at, at).len() == 0,
            decreases n - i,
        {
            proof {
                lemma_history_step(store@, i as int, page_id, file_id@, at, at);
            }
            let row = store.row_at(i);
            if row.is_owned_by(page_id, file_id) && row.revision_number == revision_number {
                proof {
                    lemma_first_stays(store@, i as int + 1, page_id, file_id@, at, at);
                }
                return Some(row.duplicate());
            }
            i += 1;
        }
        assert(store@.take(n as int) =~= store@);
        None
    }

    /// Whether an owner has a revision with the given number.
    #[inline]
    pub fn revision_exists(store: &RevisionStore, page_id: i64, file_id: &str, revision_number: i32) -> (r: bool)
        ensures
            r == (history_between(store@, page_id, file_id@, revision_number as int, revision_number as int).len()
                > 0),
    {
        Self::get_optional(store, page_id, file_id, revision_number).is_some()
    }

    /// The revision of an owner that carries the given number.
    ///
    /// Fails with `NotFound` exactly when the owner has no such revision.
    #[inline]
    pub fn get(store: &RevisionStore, page_id: i64, file_id: &str, revision_number: i32) -> (r: Result<
        FileRevisionModel,
        ServiceError,
    >)
        ensures
            match r {
                Ok(row) => history_between(
                    store@,
                    page_id,
                    file_id@,
                    revision_number as int,
                    revision_number as int,
                ).len() > 0 && row@ == history_between(
                    store@,
                    page_id,
                    file_id@,
                    revision_number as int,
                    revision_number as int,
                ).first(),
                Err(e) => e == ServiceError::NotFound && history_between(
                    store@,
                    page_id,
                    file_id@,
                    revision_number as int,
                    revision_number as int,
                ).len() == 0,
            },
    {
        match Self::get_optional(store, page_id, file_id, revision_number) {
            Some(row) => Ok(row),
            None => Err(ServiceError::NotFound),
        }
    }

    /// The number of revisions of an owner.
    ///
    /// An owner without rows does not exist: the count is never zero, and
    /// the call fails with `NotFound` exactly when the owner has no rows.
    pub fn count(store: &RevisionStore, page_id: i64, file_id: &str) -> (r: Result<i32, ServiceError>)
        requires
            store.wf(),
        ensures
            match r {
                Ok(count) => count > 0 && count == history(store@, page_id, file_id@).len(),
                Err(e) => e == ServiceError::NotFound && history(store@, page_id, file_id@).len() == 0,
            },
    {
        let ghost lo = i32::MIN as int;
        let ghost hi = i32::MAX as int;
        let mut count: u64 = 0;
        let mut i: usize = 0;
        let n = store.len();
        while i < n
            invariant
                i <= n,
                n == store@.len(),
                n <= i32::MAX,
                lo == i32::MIN as int,
                hi == i32::MAX as int,
                0 <= count <= i,
                count == history_between(store@.take(i as int), page_id, file_id@, lo, hi).len(),
            decreases n - i,
        {
            proof {
                lemma_history_step(store@, i as int, page_id, file_id@, lo, hi);
            }
            if store.row_at(i).is_owned_by(page_id, file_id) {
                count += 1;
            }
            i += 1;
        }
        assert(store@.take(n as int) =~= store@);
        count_from_rows(count)
    }

    /// A page of an owner's history.
    ///
    /// A negative `revision_number` stands for the most recent revision.
    /// `Before` selects the rows numbered at or below the anchor, `After`
    /// those at or above it. At most `revision_limit` rows are returned,
    /// the earliest of the selection, and in a well-formed log they come in
    /// ascending order of revision number whatever the direction.
    pub fn get_range(
        store: &RevisionStore,
        page_id: i64,
        file_id: &str,
        revision_number: i32,
        revision_direction: FetchDirection,
        revision_limit: u64,
    ) -> (r: Vec<FileRevisionModel>)
        ensures
            row_views(r@) == range_rows(
                store@,
                page_id,
                file_id@,
                revision_number,
                revision_direction,
                revision_limit,
            ),
            r@.len() <= revision_limit,
            store.wf() ==> forall|a: int, b: int|
                0 <= a < b < r@.len() ==> (#[trigger] r@[a]).revision_number < (#[trigger] r@[b]).revision_number,
    {
        let (low, high): (i32, i32) = range_bounds(revision_number, revision_direction);
        let ghost lo = range_low(revision_number, revision_direction);
        let ghost hi = range_high(revision_number, revision_direction);
        let mut out: Vec<FileRevisionModel> = Vec::new();
        let mut i: usize = 0;
        let n = store.len();
        while i < n
            invariant
                i <= n,
                n == store@.len(),
                lo == low,
                hi == high,
                out@.len() <= revision_limit,
                row_views(out@) == capped(
                    history_between(store@.take(i as int), page_id, file_id@, lo, hi),
                    revision_limit as int,
                ),
            decreases n - i,
        {
            proof {
                lemma_history_step(store@, i as int, page_id, file_id@, lo, hi);
            }
            let ghost before = history_between(store@.take(i as int), page_id, file_id@, lo, hi);
            let row = store.row_at(i);
            if row.is_owned_by(page_id, file_id) && low <= row.revision_number && row.revision_number <= high {
                if (out.len() as u64) < revision_limit {
                    let ghost kept = out@;
                    let copy = row.duplicate();
                    out.push(copy);
                    assert(row_views(out@) =~= row_views(kept).push(row@));
                    assert(capped(before.push(row@), revision_limit as int) =~= before.push(row@));
                } else {
                    assert(capped(before.push(row@), revision_limit as int) =~= capped(
                        before,
                        revision_limit as int,
                    ));
                }
            }
            i += 1;
        }
        assert(store@.take(n as int) =~= store@);
        proof {
            if store.wf() {
                let h = history_between(store@, page_id, file_id@, lo, hi);
                lemma_history_ascending(store@, page_id, file_id@, lo, hi);
                assert forall|a: int, b: int| 0 <= a < b < out@.len() implies (#[trigger] out@[a]).revision_number < (
                #[trigger] out@[b]).revision_number by {
                    assert(row_views(out@)[a] == h[a]);
                    assert(row_views(out@)[b] == h[b]);
                }
            }
        }
        out
    }
}

/// Counts the revisions of a file and says where its numbering starts and
/// ends.
///
/// The numbering starts at zero, so it ends one below the count. Fails
/// with `NotFound` exactly when the owner has no rows.
pub fn file_revision_count(store: &RevisionStore, page_id: i64, file_id: &str) -> (r: Result<
    RevisionCountOutput,
    ServiceError,
>)
    requires
        store.wf(),
    ensures
        match r {
            Ok(output) => output.revision_count > 0 && output.revision_count == history(
                store@,
                page_id,
                file_id@,
            ).len() && output.first_revision == 0 && output.last_revision == output.revision_count - 1,
            Err(e) => e == ServiceError::NotFound && history(store@, page_id, file_id@).len() == 0,
        },
{
    match FileRevisionService::count(store, page_id, file_id) {
        Ok(revision_count) => Ok(summarize_count(revision_count)),
        Err(e) => Err(e),
    }
}

/// Once a selected history has a first row, rows stored later do not
/// change which one it is.
pub proof fn lemma_first_stays(
    rows: Seq<RevisionView>,
    n: int,
    page_id: i64,
    file_id: Seq<char>,
    lo: int,
    hi: int,
)
    requires
        0 <= n <= rows.len(),
        history_between(rows.take(n), page_id, file_id, lo, hi).len() > 0,
    ensures
        history_between(rows, page_id, file_id, lo, hi).len() > 0,
        history_between(rows, page_id, file_id, lo, hi).first() == history_between(
            rows.take(n),
            page_id,
            file_id,
            lo,
            hi,
        ).first(),
    decreases rows.len() - n,
{
    if n < rows.len() {
        lemma_history_step(rows, n, page_id, file_id, lo, hi);
        lemma_first_stays(rows, n + 1, page_id, file_id, lo, hi);
    } else {
        assert(rows.take(n) =~= rows);
    }
}

} // verus!

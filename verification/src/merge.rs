//! The record merger: the per-field combine rule and the left fold that
//! consolidates a batch into a single record.

use vstd::prelude::*;

use crate::record::TaskDetails;
use crate::record::TaskInfo;
use crate::record::TaskInfoV;

verus! {

/// Two counters combined: both present sum (saturating at `u64::MAX`), one
/// present is taken, none stays absent.
pub open spec fn merge_counts(a: Option<u64>, b: Option<u64>) -> Option<u64> {
    match (a, b) {
        (Some(x), Some(y)) => Some(
            if x + y > u64::MAX {
                u64::MAX
            } else {
                (x + y) as u64
            },
        ),
        (Some(x), None) => Some(x),
        (None, Some(y)) => Some(y),
        (None, None) => None,
    }
}

/// `details` combined: an absent side contributes nothing, two present sides
/// combine counter by counter.
pub open spec fn merge_details_spec(a: Option<TaskDetails>, b: Option<TaskDetails>) -> Option<
    TaskDetails,
> {
    match (a, b) {
        (Some(x), Some(y)) => Some(
            TaskDetails {
                produced_count: merge_counts(x.produced_count, y.produced_count),
                consumed_count: merge_counts(x.consumed_count, y.consumed_count),
            },
        ),
        (Some(x), None) => Some(x),
        (None, Some(y)) => Some(y),
        (None, None) => None,
    }
}

/// The combine rule, left the accumulator and right the next record:
/// `status`, `kind` and `elapsed` always come from the left; `target_id` and
/// `error` are left-biased first-present-wins; the counters sum.
pub open spec fn merge_spec(a: TaskInfoV, b: TaskInfoV) -> TaskInfoV {
    TaskInfoV {
        target_id: if a.target_id is Some {
            a.target_id
        } else {
            b.target_id
        },
        status: a.status,
        kind: a.kind,
        error: if a.error is Some {
            a.error
        } else {
            b.error
        },
        details: merge_details_spec(a.details, b.details),
        elapsed: a.elapsed,
    }
}

fn merge_counts_exec(a: Option<u64>, b: Option<u64>) -> (r: Option<u64>)
    ensures
        r == merge_counts(a, b),
{
    match (a, b) {
        (Some(x), Some(y)) => Some(
            if y > u64::MAX - x {
                u64::MAX
            } else {
                x + y
            },
        ),
        (Some(x), None) => Some(x),
        (None, Some(y)) => Some(y),
        (None, None) => None,
    }
}

impl TaskInfo {
    /// Merges the next record of the batch into the accumulator, as
    /// `merge_spec` describes.
    pub fn merge(self, rhs: TaskInfo) -> (r: TaskInfo)
        ensures
            r@ == merge_spec(self@, rhs@),
    {
        let details = match (self.details, rhs.details) {
            (Some(x), Some(y)) => Some(
                TaskDetails {
                    produced_count: merge_counts_exec(x.produced_count, y.produced_count),
                    consumed_count: merge_counts_exec(x.consumed_count, y.consumed_count),
                },
            ),
            (Some(x), None) => Some(x),
            (None, Some(y)) => Some(y),
            (None, None) => None,
        };
        TaskInfo {
            target_id: match self.target_id {
                Some(s) => Some(s),
                None => rhs.target_id,
            },
            status: self.status,
            kind: self.kind,
            error: match self.error {
                Some(e) => Some(e),
                None => rhs.error,
            },
            details,
            elapsed: self.elapsed,
        }
    }
}

/// The whole batch folded from the left, seeded with its first record.
pub open spec fn consolidate_spec(s: Seq<TaskInfoV>) -> TaskInfoV
    recommends
        s.len() > 0,
    decreases s.len(),
{
    if s.len() <= 1 {
        s[0]
    } else {
        merge_spec(consolidate_spec(s.drop_last()), s.last())
    }
}

/// Folds a batch of records into one consolidated record; an empty batch
/// has none.
pub fn consolidate(records: &Vec<TaskInfo>) -> (r: Option<TaskInfo>)
    ensures
        records@.len() == 0 <==> r is None,
        records@.len() > 0 ==> (r matches Some(t) && t@ == consolidate_spec(
            records@.map_values(|x: TaskInfo| x@),
        )),
{
    let ghost vs = records@.map_values(|x: TaskInfo| x@);
    if records.len() == 0 {
        return None;
    }
    let mut acc = records[0].duplicate();
    assert(acc@ == vs.take(1)[0]);
    let n = records.len();
    for i in 1..n
        invariant
            n == records@.len(),
            1 <= i <= n,
            vs == records@.map_values(|x: TaskInfo| x@),
            vs.len() == n,
            acc@ == consolidate_spec(vs.take(i as int)),
    {
        acc = acc.merge(records[i].duplicate());
        assert(vs.take(i as int + 1).drop_last() =~= vs.take(i as int));
        assert(vs.take(i as int + 1).last() == vs[i as int]);
    }
    assert(vs.take(n as int) =~= vs);
    Some(acc)
}

/// The consolidated record keeps the first record's `status`, `kind` and
/// `elapsed`, whatever records follow it and whatever they hold.
pub proof fn lemma_consolidate_keeps_first(s: Seq<TaskInfoV>)
    requires
        s.len() > 0,
    ensures
        consolidate_spec(s).status == s[0].status,
        consolidate_spec(s).kind == s[0].kind,
        consolidate_spec(s).elapsed == s[0].elapsed,
    decreases s.len(),
{
    if s.len() > 1 {
        lemma_consolidate_keeps_first(s.drop_last());
        assert(s.drop_last()[0] == s[0]);
    }
}

/// The consolidated record's `target_id` is the first one present in the
/// batch, in batch order; it is absent only when every record's is.
pub proof fn lemma_consolidate_target_first_present(s: Seq<TaskInfoV>)
    requires
        s.len() > 0,
    ensures
        (consolidate_spec(s).target_id is None) <==> (forall|i: int|
            0 <= i < s.len() ==> s[i].target_id is None),
        (consolidate_spec(s).target_id is Some) ==> (exists|i: int|
            0 <= i < s.len() && s[i].target_id == consolidate_spec(s).target_id && (forall|j: int|
                0 <= j < i ==> s[j].target_id is None)),
    decreases s.len(),
{
    if s.len() > 1 {
        lemma_consolidate_target_first_present(s.drop_last());
        assert(forall|i: int| 0 <= i < s.len() - 1 ==> s.drop_last()[i] == s[i]);
    }
}

} // verus!

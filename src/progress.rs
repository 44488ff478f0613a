//! The running count of a batch's outcomes.
use vstd::prelude::*;
use crate::http::OutcomeKind;

verus! {

/// The counters of a batch as numbers.
pub ghost struct ProgressCounts {
    pub total: nat,
    pub completed: nat,
    pub failed: nat,
}

/// The counters after one more outcome of kind `kind`.
pub open spec fn record_step(p: ProgressCounts, kind: OutcomeKind) -> ProgressCounts {
    ProgressCounts {
        total: p.total,
        completed: p.completed + 1,
        failed: p.failed + if kind == OutcomeKind::Failed { 1nat } else { 0nat },
    }
}

/// The counters after the outcomes `kinds`, in order.
pub open spec fn record_all(p: ProgressCounts, kinds: Seq<OutcomeKind>) -> ProgressCounts
    decreases kinds.len(),
{
    if kinds.len() == 0 {
        p
    } else {
        record_step(record_all(p, kinds.drop_last()), kinds.last())
    }
}

/// Number of failures among `kinds`.
pub open spec fn count_failed(kinds: Seq<OutcomeKind>) -> nat
    decreases kinds.len(),
{
    if kinds.len() == 0 {
        0
    } else {
        count_failed(kinds.drop_last()) + if kinds.last() == OutcomeKind::Failed {
            1nat
        } else {
            0nat
        }
    }
}

/// Counting a whole batch: from fresh counters, one outcome per file of the
/// batch, in any order and of any mix of kinds, ends with every file counted,
/// the failures counted exactly, and none counted where no outcome failed.
pub proof fn lemma_batch_counts(total: nat, kinds: Seq<OutcomeKind>)
    requires
        kinds.len() == total,
    ensures
        ({
            let end = record_all(ProgressCounts { total, completed: 0, failed: 0 }, kinds);
            &&& end.total == total
            &&& end.completed == total
            &&& end.failed == count_failed(kinds)
            &&& end.failed <= end.completed
            &&& (forall|i: int| 0 <= i < kinds.len() ==> kinds[i] != OutcomeKind::Failed) ==> end.failed == 0
        }),
{
    lemma_record_all(total, kinds);
}

proof fn lemma_record_all(total: nat, kinds: Seq<OutcomeKind>)
    ensures
        ({
            let end = record_all(ProgressCounts { total, completed: 0, failed: 0 }, kinds);
            &&& end.total == total
            &&& end.completed == kinds.len()
            &&& end.failed == count_failed(kinds)
            &&& count_failed(kinds) <= kinds.len()
            &&& (forall|i: int| 0 <= i < kinds.len() ==> kinds[i] != OutcomeKind::Failed)
                ==> count_failed(kinds) == 0
        }),
    decreases kinds.len(),
{
    if kinds.len() > 0 {
        lemma_record_all(total, kinds.drop_last());
        if forall|i: int| 0 <= i < kinds.len() ==> kinds[i] != OutcomeKind::Failed {
            assert forall|i: int| 0 <= i < kinds.drop_last().len() implies kinds.drop_last()[i]
                != OutcomeKind::Failed by {
                assert(kinds.drop_last()[i] == kinds[i]);
            }
            assert(kinds.last() == kinds[kinds.len() - 1]);
        }
    }
}

/// How far a batch has come: files counted so far, and how many of those failed.
pub struct BatchProgress {
    total: usize,
    completed: usize,
    failed: usize,
}

impl View for BatchProgress {
    type V = ProgressCounts;

    closed spec fn view(&self) -> ProgressCounts {
        ProgressCounts {
            total: self.total as nat,
            completed: self.completed as nat,
            failed: self.failed as nat,
        }
    }
}

impl BatchProgress {
    /// Counters never pass the total, and failures are among the counted.
    pub open spec fn wf(&self) -> bool {
        self@.failed <= self@.completed <= self@.total
    }

    /// Counters for a batch of `total` files, none counted yet.
    pub fn new(total: usize) -> (r: BatchProgress)
        ensures
            r.wf(),
            r@ == (ProgressCounts { total: total as nat, completed: 0, failed: 0 }),
    {
        BatchProgress { total, completed: 0, failed: 0 }
    }

    /// Counts one outcome; the result says whether it was a failure, which
    /// the caller reports on a line of its own.
    pub fn record(&mut self, kind: OutcomeKind) -> (r: bool)
        requires
            old(self).wf(),
            old(self)@.completed < old(self)@.total,
        ensures
            final(self).wf(),
            r == (kind == OutcomeKind::Failed),
            final(self)@ == record_step(old(self)@, kind),
    {
        self.completed = self.completed + 1;
        match kind {
            OutcomeKind::Failed => {
                self.failed = self.failed + 1;
                true
            },
            _ => false,
        }
    }

    /// Number of files in the batch.
    pub fn total(&self) -> (r: usize)
        ensures
            r == self@.total,
    {
        self.total
    }

    /// Number of outcomes counted.
    pub fn completed(&self) -> (r: usize)
        ensures
            r == self@.completed,
    {
        self.completed
    }

    /// Number of failures counted.
    pub fn failed(&self) -> (r: usize)
        ensures
            r == self@.failed,
    {
        self.failed
    }

    /// Whether every file of the batch has been counted.
    pub fn is_finished(&self) -> (r: bool)
        ensures
            r == (self@.completed == self@.total),
    {
        self.completed == self.total
    }
}

} // verus!

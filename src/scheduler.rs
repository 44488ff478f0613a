//! Admission control for a batch of uploads: at most `limit` uploads run at
//! once, each file is handed out once and finishes with exactly one outcome.
//!
//! The scheduler only decides; the caller performs each admitted upload and
//! reports its outcome back.
use vstd::prelude::*;
use crate::http::OutcomeKind;

verus! {

/// The abstract state of a batch.
pub ghost struct SchedulerState {
    /// Most uploads allowed to run at once.
    pub limit: nat,
    /// Files `0 .. admitted` have been handed out, in order.
    pub admitted: nat,
    /// For each file of the batch, its outcome once it has finished.
    pub results: Seq<Option<OutcomeKind>>,
}

/// Number of finished files in `results`.
pub open spec fn count_finished(results: Seq<Option<OutcomeKind>>) -> nat
    decreases results.len(),
{
    if results.len() == 0 {
        0
    } else {
        count_finished(results.drop_last()) + if results.last() is Some { 1nat } else { 0nat }
    }
}

impl SchedulerState {
    pub open spec fn total(self) -> nat {
        self.results.len()
    }

    pub open spec fn finished(self) -> nat {
        count_finished(self.results)
    }

    /// Uploads handed out whose outcome has not come back.
    pub open spec fn running(self) -> int {
        self.admitted - self.finished()
    }

    pub open spec fn valid(self) -> bool {
        &&& self.limit >= 1
        &&& self.admitted <= self.total()
        &&& forall|i: int| self.admitted <= i < self.total() ==> self.results[i] is None
        &&& 0 <= self.running() <= self.limit
    }

    /// Whether `i` is a file handed out and not finished.
    pub open spec fn is_running(self, i: int) -> bool {
        0 <= i < self.admitted && self.results[i] is None
    }

    /// Whether another file may start now.
    pub open spec fn can_admit(self) -> bool {
        self.admitted < self.total() && self.running() < self.limit
    }

    /// The state after handing out the next file.
    pub open spec fn after_admit(self) -> SchedulerState {
        SchedulerState { admitted: self.admitted + 1, ..self }
    }

    /// The state after file `i` finished with `kind`.
    pub open spec fn after_complete(self, i: int, kind: OutcomeKind) -> SchedulerState {
        SchedulerState { results: self.results.update(i, Some(kind)), ..self }
    }

    /// Whether every file of the batch has finished.
    pub open spec fn done(self) -> bool {
        self.finished() == self.total()
    }
}

/// Marking one unfinished file as finished adds one to the count.
proof fn lemma_count_update(s: Seq<Option<OutcomeKind>>, i: int, k: OutcomeKind)
    requires
        0 <= i < s.len(),
        s[i] is None,
    ensures
        count_finished(s.update(i, Some(k))) == count_finished(s) + 1,
    decreases s.len(),
{
    let t = s.update(i, Some(k));
    if i < s.len() - 1 {
        assert(t.drop_last() =~= s.drop_last().update(i, Some(k)));
        lemma_count_update(s.drop_last(), i, k);
    } else {
        assert(t.drop_last() =~= s.drop_last());
    }
}

/// The count of finished files is at most the count of files.
proof fn lemma_count_bounded(s: Seq<Option<OutcomeKind>>)
    ensures
        count_finished(s) <= s.len(),
        count_finished(s) == s.len() ==> forall|i: int| 0 <= i < s.len() ==> s[i] is Some,
    decreases s.len(),
{
    if s.len() > 0 {
        lemma_count_bounded(s.drop_last());
        if count_finished(s) == s.len() {
            assert forall|i: int| 0 <= i < s.len() implies s[i] is Some by {
                if i < s.len() - 1 {
                    assert(s.drop_last()[i] == s[i]);
                }
            }
        }
    }
}

/// Files past the admitted ones are unfinished, so the finished ones number
/// at most the admitted ones.
proof fn lemma_finished_within_admitted(s: Seq<Option<OutcomeKind>>, admitted: nat)
    requires
        admitted <= s.len(),
        forall|i: int| admitted <= i < s.len() ==> s[i] is None,
    ensures
        count_finished(s) <= admitted,
    decreases s.len(),
{
    if s.len() > admitted {
        lemma_finished_within_admitted(s.drop_last(), admitted);
    } else {
        lemma_count_bounded(s);
    }
}

/// Why the scheduler refused a request.
#[derive(Clone, Copy, Debug, PartialEq, Eq, Structural)]
pub enum ScheduleError {
    /// The concurrency limit is zero: no work could ever run.
    InvalidConfiguration,
    /// The file named is not running, so it cannot finish now.
    NotRunning,
}

/// Decides which file of a batch starts next and keeps track of outcomes.
pub struct Scheduler {
    limit: usize,
    admitted: usize,
    finished: usize,
    results: Vec<Option<OutcomeKind>>,
}

impl View for Scheduler {
    type V = SchedulerState;

    closed spec fn view(&self) -> SchedulerState {
        SchedulerState {
            limit: self.limit as nat,
            admitted: self.admitted as nat,
            results: self.results@,
        }
    }
}

impl Scheduler {
    /// The scheduler's fields agree with its abstract state, which is valid.
    pub closed spec fn wf(&self) -> bool {
        &&& self@.valid()
        &&& self.finished == self@.finished()
    }

    /// A scheduler for a batch of `total` files with at most `limit` running
    /// at once; a zero limit is refused.
    pub fn new(total: usize, limit: usize) -> (r: Result<Scheduler, ScheduleError>)
        ensures
            limit == 0 <==> r == Err::<Scheduler, ScheduleError>(
                ScheduleError::InvalidConfiguration,
            ),
            r is Ok <==> limit != 0,
            r matches Ok(s) ==> {
                &&& s.wf()
                &&& s@.valid()
                &&& s@.finished() == 0
                &&& s@.limit == limit
                &&& s@.admitted == 0
                &&& s@.results == Seq::new(total as nat, |i: int| None::<OutcomeKind>)
            },
    {
        if limit == 0 {
            return Err(ScheduleError::InvalidConfiguration);
        }
        let mut results: Vec<Option<OutcomeKind>> = Vec::new();
        let mut i: usize = 0;
        while i < total
            invariant
                i <= total,
                results@ == Seq::new(i as nat, |j: int| None::<OutcomeKind>),
            decreases total - i,
        {
            results.push(None);
            i = i + 1;
            assert(results@ =~= Seq::new(i as nat, |j: int| None::<OutcomeKind>));
        }
        proof {
            lemma_finished_within_admitted(results@, 0);
        }
        Ok(Scheduler { limit, admitted: 0, finished: 0, results })
    }

    /// Number of files in the batch.
    pub fn total(&self) -> (r: usize)
        requires
            self.wf(),
        ensures
            r == self@.total(),
    {
        self.results.len()
    }

    /// Most uploads allowed to run at once.
    pub fn limit(&self) -> (r: usize)
        ensures
            r == self@.limit,
    {
        self.limit
    }

    /// Number of files that have finished.
    pub fn finished(&self) -> (r: usize)
        requires
            self.wf(),
        ensures
            r == self@.finished(),
    {
        self.finished
    }

    /// Number of uploads handed out whose outcome has not come back.
    pub fn running(&self) -> (r: usize)
        requires
            self.wf(),
        ensures
            r == self@.running(),
    {
        self.admitted - self.finished
    }

    /// Whether every file of the batch has finished.
    pub fn is_done(&self) -> (r: bool)
        requires
            self.wf(),
        ensures
            r == self@.done(),
    {
        self.finished == self.results.len()
    }

    /// Hands out the next file if one is waiting and fewer than `limit`
    /// uploads are running; otherwise hands out nothing and changes nothing.
    pub fn start_next(&mut self) -> (r: Option<usize>)
        requires
            old(self).wf(),
        ensures
            final(self).wf(),
            final(self)@.valid(),
            old(self)@.can_admit() ==> r == Some(old(self)@.admitted as usize) && final(self)@
                == old(self)@.after_admit(),
            !old(self)@.can_admit() ==> r is None && final(self)@ == old(self)@,
    {
        if self.admitted < self.results.len() && self.admitted - self.finished < self.limit {
            let i = self.admitted;
            self.admitted = self.admitted + 1;
            Some(i)
        } else {
            None
        }
    }

    /// Records that running file `index` finished with `kind`. A file that
    /// is not running is refused and nothing changes.
    pub fn complete(&mut self, index: usize, kind: OutcomeKind) -> (r: Result<(), ScheduleError>)
        requires
            old(self).wf(),
        ensures
            final(self).wf(),
            final(self)@.valid(),
            old(self)@.is_running(index as int) ==> r is Ok && final(self)@ == old(
                self,
            )@.after_complete(index as int, kind) && final(self)@.finished() == old(
                self,
            )@.finished() + 1,
            !old(self)@.is_running(index as int) ==> r == Err::<(), ScheduleError>(
                ScheduleError::NotRunning,
            ) && final(self)@ == old(self)@,
    {
        if index >= self.admitted {
            return Err(ScheduleError::NotRunning);
        }
        match self.results[index] {
            Some(_) => {
                return Err(ScheduleError::NotRunning);
            },
            None => {},
        }
        proof {
            lemma_count_update(self.results@, index as int, kind);
            lemma_finished_within_admitted(self.results@, self.admitted as nat);
        }
        self.results.set(index, Some(kind));
        proof {
            lemma_finished_within_admitted(self.results@, self.admitted as nat);
        }
        self.finished = self.finished + 1;
        Ok(())
    }
}

/// A well-formed scheduler is in a valid state, so the laws below apply to
/// it.
pub proof fn lemma_wf_valid(s: &Scheduler)
    requires
        s.wf(),
    ensures
        s@.valid(),
{
}

/// Concurrency bound: in every valid state, and so after every step the
/// scheduler takes, no more than `limit` uploads are running.
pub proof fn lemma_running_within_limit(s: SchedulerState)
    requires
        s.valid(),
    ensures
        0 <= s.running() <= s.limit,
        s.can_admit() ==> s.after_admit().valid() && s.after_admit().running() <= s.limit,
{
}

/// Every step keeps the state valid.
pub proof fn lemma_steps_keep_valid(s: SchedulerState, i: int, kind: OutcomeKind)
    requires
        s.valid(),
    ensures
        s.can_admit() ==> s.after_admit().valid(),
        s.is_running(i) ==> s.after_complete(i, kind).valid() && s.after_complete(
            i,
            kind,
        ).finished() == s.finished() + 1,
{
    if s.is_running(i) {
        lemma_count_update(s.results, i, kind);
        let t = s.after_complete(i, kind);
        lemma_finished_within_admitted(t.results, t.admitted);
    }
}

/// A finished batch has exactly one outcome for each file: every file was
/// handed out, each has an outcome, and the outcomes number as many as the
/// files, whatever their kinds.
pub proof fn lemma_done_means_one_outcome_each(s: SchedulerState)
    requires
        s.valid(),
        s.done(),
    ensures
        s.admitted == s.total(),
        s.running() == 0,
        forall|i: int| 0 <= i < s.total() ==> s.results[i] is Some,
{
    lemma_finished_within_admitted(s.results, s.admitted);
    lemma_count_bounded(s.results);
}

/// A batch never stalls: until every file has finished, either a file can
/// start or some upload is running and will report back.
pub proof fn lemma_never_stuck(s: SchedulerState)
    requires
        s.valid(),
        !s.done(),
    ensures
        s.can_admit() || exists|i: int| s.is_running(i),
{
    if !s.can_admit() {
        lemma_finished_within_admitted(s.results, s.admitted);
        if s.running() == 0 {
            assert(s.admitted == s.total());
            assert(false);
        }
        assert(s.running() > 0);
        lemma_some_running(s.results, s.admitted);
        let i = choose|i: int| 0 <= i < s.admitted && s.results[i] is None;
        assert(s.is_running(i));
    }
}

proof fn lemma_some_running(s: Seq<Option<OutcomeKind>>, admitted: nat)
    requires
        admitted <= s.len(),
        forall|i: int| admitted <= i < s.len() ==> s[i] is None,
        count_finished(s) < admitted,
    ensures
        exists|i: int| 0 <= i < admitted && s[i] is None,
    decreases s.len(),
{
    if s.len() > admitted {
        lemma_some_running(s.drop_last(), admitted);
        let i = choose|i: int| 0 <= i < admitted && s.drop_last()[i] is None;
        assert(s[i] is None);
    } else if s.last() is None {
        assert(s[s.len() - 1] is None);
    } else {
        lemma_count_bounded(s.drop_last());
        lemma_some_running(s.drop_last(), (admitted - 1) as nat);
        let i = choose|i: int| 0 <= i < admitted - 1 && s.drop_last()[i] is None;
        assert(s[i] is None);
    }
}

/// A failure does not reach the rest of the batch: a file that fails leaves
/// the scheduler in the same position, for admission and for what is left,
/// as if it had succeeded.
pub proof fn lemma_failure_isolated(s: SchedulerState, i: int)
    requires
        s.valid(),
        s.is_running(i),
    ensures
        ({
            let failed = s.after_complete(i, OutcomeKind::Failed);
            let ok = s.after_complete(i, OutcomeKind::Uploaded);
            &&& failed.valid() && ok.valid()
            &&& failed.admitted == ok.admitted
            &&& failed.running() == ok.running()
            &&& failed.finished() == ok.finished()
            &&& failed.can_admit() == ok.can_admit()
            &&& forall|j: int|
                0 <= j < s.total() && j != i ==> failed.results[j] == s.results[j] && ok.results[j]
                    == s.results[j]
        }),
{
    lemma_steps_keep_valid(s, i, OutcomeKind::Failed);
    lemma_steps_keep_valid(s, i, OutcomeKind::Uploaded);
}

} // verus!

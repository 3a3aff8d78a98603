//! The bounded-concurrency scheduler of one run.
//!
//! The scheduler is the run's dispatch bookkeeping: jobs are handed out by
//! run-unique index, at most `limit` of them are out at any instant, and the
//! run is complete only when every dispatched job has settled. The waiting
//! itself (the task pool, the awaits) happens outside the library, which is
//! asked before every dispatch and told of every settled job.

use vstd::prelude::*;

verus! {

/// Relies on `num_cpus::get`: the host's logical core count, which its
/// documentation promises to be at least one.
#[verifier::external_body]
pub(crate) fn host_parallelism() -> (r: usize)
    ensures
        r >= 1,
{
    num_cpus::get()
}

/// The concurrency limit of a run: the configured `jobs` value where one is
/// given (a zero is raised to one, so the run can make progress), the host's
/// logical core count otherwise.
pub fn effective_jobs(jobs: Option<usize>) -> (r: usize)
    ensures
        r >= 1,
        jobs matches Some(n) ==> r == (if n == 0 {
            1usize
        } else {
            n
        }),
{
    match jobs {
        Some(n) => if n == 0 {
            1
        } else {
            n
        },
        None => host_parallelism(),
    }
}

/// The dispatch state of one run: how many jobs it has in all, how many were
/// handed out so far, how many have settled, and the concurrency limit.
#[derive(Clone, Copy, Debug, PartialEq, Eq, Structural)]
pub struct Scheduler {
    pub total: usize,
    pub dispatched: usize,
    pub finished: usize,
    pub limit: usize,
}

impl Scheduler {
    /// How many jobs are running: handed out and not yet settled.
    pub open spec fn running(&self) -> int {
        self.dispatched - self.finished
    }

    /// The scheduler's invariant: the limit allows progress, jobs settle only
    /// after dispatch, dispatch never exceeds the run's jobs, and never more
    /// than `limit` jobs are out at once.
    pub open spec fn wf(&self) -> bool {
        &&& self.limit >= 1
        &&& self.finished <= self.dispatched <= self.total
        &&& self.running() <= self.limit
    }

    /// A fresh scheduler for a run of `total` jobs under `limit`.
    pub fn new(total: usize, limit: usize) -> (s: Scheduler)
        requires
            limit >= 1,
        ensures
            s.wf(),
            s == (Scheduler { total, dispatched: 0, finished: 0, limit }),
    {
        Scheduler { total, dispatched: 0, finished: 0, limit }
    }

    /// Whether another job may start now: pending work remains and the
    /// concurrency bound has room.
    pub fn can_dispatch(&self) -> (r: bool)
        requires
            self.wf(),
        ensures
            r == (self.dispatched < self.total && self.running() < self.limit),
    {
        self.dispatched < self.total && self.dispatched - self.finished < self.limit
    }

    /// Hands out the next pending job. The returned id is the job's
    /// run-unique dispatch index, which is also its position in the run's job
    /// list.
    pub fn dispatch(&mut self) -> (id: usize)
        requires
            old(self).wf(),
            old(self).dispatched < old(self).total,
            old(self).running() < old(self).limit,
        ensures
            final(self).wf(),
            id == old(self).dispatched,
            *final(self) == (Scheduler {
                dispatched: (old(self).dispatched + 1) as usize,
                ..*old(self)
            }),
            final(self).running() == old(self).running() + 1,
    {
        let id = self.dispatched;
        self.dispatched = self.dispatched + 1;
        id
    }

    /// Records one dispatched job reaching a terminal state. Failure frees
    /// the slot exactly like success: one job's failure never blocks the
    /// dispatch of the others.
    pub fn settle(&mut self)
        requires
            old(self).wf(),
            old(self).running() > 0,
        ensures
            final(self).wf(),
            *final(self) == (Scheduler { finished: (old(self).finished + 1) as usize, ..*old(self) }),
            final(self).running() == old(self).running() - 1,
    {
        self.finished = self.finished + 1;
    }

    /// Whether the run is complete: every job was dispatched and has settled.
    /// Only then is the terminal exit event due on the message queue.
    pub fn complete(&self) -> (r: bool)
        requires
            self.wf(),
        ensures
            r == (self.finished == self.total),
            r ==> self.running() == 0 && self.dispatched == self.total,
    {
        self.finished == self.total
    }
}

/// Concurrency bound: a well-formed scheduler never has more jobs running
/// than its limit. `new` establishes well-formedness and `dispatch` and
/// `settle` preserve it, so the bound holds at every instant of a run.
pub proof fn lemma_concurrency_bound(s: Scheduler)
    requires
        s.wf(),
    ensures
        s.running() <= s.limit,
{
}

} // verus!

//! The lifecycle of one job, as a verified state machine.
//!
//! A job goes `Pending → Running → Completed | Failed` and is never
//! re-entered once terminal. The machine tracks what the lifecycle promises
//! about the filesystem — the temp file exists only while the job runs, the
//! destination appears only through the atomic rename of a completed job, a
//! failing job removes its temp file — and the progress ratios the job
//! reports, in permille. The filesystem operations themselves happen outside
//! the library, which is told their outcomes.

use vstd::prelude::*;
use vstd::arithmetic::div_mod::lemma_multiply_divide_lt;
use vstd::arithmetic::mul::lemma_mul_strict_inequality;

verus! {

/// Progress is reported in permille: the whole of a job is this much.
pub const RATIO_WHOLE: u32 = 1000;

/// The phase of a job's lifecycle.
#[derive(Clone, Copy, Debug, PartialEq, Eq, Structural)]
pub enum JobPhase {
    Pending,
    Running,
    Completed,
    Failed,
}

/// How the attempt to remove a failing job's temp file went.
#[derive(Clone, Copy, Debug, PartialEq, Eq, Structural)]
pub enum RemoveOutcome {
    /// The temp file was removed.
    Removed,
    /// The temp file was already absent.
    AlreadyAbsent,
    /// Removal failed for another reason; the temp file remains.
    Failed,
}

/// The state of one job: its phase, what it knows of its source and
/// destination, whether its temp file exists, and the last progress ratio it
/// reported.
#[derive(Clone, Copy, Debug, PartialEq, Eq, Structural)]
pub struct JobRun {
    pub phase: JobPhase,
    /// The source file's modification time, read when the run was planned.
    pub src_mtime: u64,
    /// Whether the destination file existed when the job was created (it then
    /// was older than the source, or the job would not have been scheduled).
    pub dest_existed: bool,
    /// Whether the job's temp file exists.
    pub temp_exists: bool,
    /// Whether the destination file exists.
    pub dest_exists: bool,
    /// The destination's modification time, once the job completed.
    pub dest_mtime: Option<u64>,
    /// The last progress ratio reported, in permille; zero before the first.
    pub last_ratio: u32,
}

/// The clamped progress ratio in permille: position over duration, capped at
/// the whole.
pub open spec fn ratio_permille(pos: u64, dur: u64) -> int
    recommends
        dur > 0,
{
    if pos >= dur {
        RATIO_WHOLE as int
    } else {
        (pos * (RATIO_WHOLE as int)) / (dur as int)
    }
}

/// What one progress poll reports: the clamped ratio, but never less than
/// what was already reported, so reported progress never moves backwards.
pub open spec fn next_ratio(last: u32, pos: u64, dur: u64) -> int
    recommends
        dur > 0,
{
    let fresh = ratio_permille(pos, dur);
    if fresh > last {
        fresh
    } else {
        last as int
    }
}

impl JobRun {
    /// The machine's invariant, phase by phase: the temp file exists exactly
    /// while the job runs (and lingers after a failure only when its removal
    /// failed); the destination changes only at completion, which stamps it
    /// with a modification time no older than the source's; progress stays
    /// within the whole and is only reported by a running job.
    pub open spec fn wf(&self) -> bool {
        &&& self.last_ratio <= RATIO_WHOLE
        &&& (self.phase is Pending ==> !self.temp_exists && self.dest_exists == self.dest_existed
            && self.dest_mtime is None && self.last_ratio == 0)
        &&& (self.phase is Running ==> self.temp_exists && self.dest_exists == self.dest_existed
            && self.dest_mtime is None)
        &&& (self.phase is Completed ==> !self.temp_exists && self.dest_exists
            && (self.dest_mtime matches Some(m) && m >= self.src_mtime))
        &&& (self.phase is Failed ==> self.dest_exists == self.dest_existed
            && self.dest_mtime is None)
    }

    /// Whether the job is in a terminal phase; no transition leaves one, and
    /// a terminal job reports nothing further.
    pub open spec fn terminal(&self) -> bool {
        self.phase is Completed || self.phase is Failed
    }

    /// A job as planned: pending, no temp file, the destination as the
    /// staleness check found it.
    pub open spec fn spec_new(src_mtime: u64, dest_existed: bool) -> JobRun {
        JobRun {
            phase: JobPhase::Pending,
            src_mtime,
            dest_existed,
            temp_exists: false,
            dest_exists: dest_existed,
            dest_mtime: None,
            last_ratio: 0,
        }
    }

    /// Creates the machine for one planned job.
    pub fn new(src_mtime: u64, dest_existed: bool) -> (j: JobRun)
        ensures
            j == JobRun::spec_new(src_mtime, dest_existed),
            j.wf(),
    {
        JobRun {
            phase: JobPhase::Pending,
            src_mtime,
            dest_existed,
            temp_exists: false,
            dest_exists: dest_existed,
            dest_mtime: None,
            last_ratio: 0,
        }
    }

    /// Entering `Running`: the destination's parent directories are ensured
    /// and the temp file begins to exist. The start event is due now.
    pub open spec fn spec_start(j: JobRun) -> JobRun {
        JobRun { phase: JobPhase::Running, temp_exists: true, ..j }
    }

    /// Starts a pending job.
    pub fn start(&mut self)
        requires
            old(self).wf(),
            old(self).phase is Pending,
        ensures
            final(self).wf(),
            *final(self) == JobRun::spec_start(*old(self)),
    {
        self.phase = JobPhase::Running;
        self.temp_exists = true;
    }

    /// One progress poll of a running job: reports the clamped ratio, never
    /// less than already reported, and remembers it.
    pub fn progress(&mut self, pos: u64, dur: u64) -> (r: u32)
        requires
            old(self).wf(),
            old(self).phase is Running,
            dur > 0,
        ensures
            final(self).wf(),
            r as int == next_ratio(old(self).last_ratio, pos, dur),
            *final(self) == (JobRun { last_ratio: r, ..*old(self) }),
            old(self).last_ratio <= r <= RATIO_WHOLE,
    {
        let fresh: u32 = if pos >= dur {
            RATIO_WHOLE
        } else {
            proof {
                lemma_mul_strict_inequality(pos as int, dur as int, RATIO_WHOLE as int);
                lemma_multiply_divide_lt(
                    pos as int * (RATIO_WHOLE as int),
                    dur as int,
                    RATIO_WHOLE as int,
                );
            }
            ((pos as u128 * RATIO_WHOLE as u128) / (dur as u128)) as u32
        };
        let r = if fresh > self.last_ratio {
            fresh
        } else {
            self.last_ratio
        };
        self.last_ratio = r;
        r
    }

    /// Completing: the temp file is atomically renamed onto the destination,
    /// which now exists and carries `now`, the clock read at the rename. The
    /// end event is due now, and nothing further.
    pub open spec fn spec_complete(j: JobRun, now: u64) -> JobRun {
        JobRun {
            phase: JobPhase::Completed,
            temp_exists: false,
            dest_exists: true,
            dest_mtime: Some(now),
            ..j
        }
    }

    /// Completes a running job whose rename succeeded at time `now`. The
    /// clock is read after the source's metadata, so it is no older.
    pub fn complete(&mut self, now: u64)
        requires
            old(self).wf(),
            old(self).phase is Running,
            now >= old(self).src_mtime,
        ensures
            final(self).wf(),
            *final(self) == JobRun::spec_complete(*old(self), now),
    {
        self.phase = JobPhase::Completed;
        self.temp_exists = false;
        self.dest_exists = true;
        self.dest_mtime = Some(now);
    }

    /// Failing: the temp file's removal was attempted and the destination is
    /// as it was — a failed job never touches it. The error event is due now,
    /// and nothing further.
    pub open spec fn spec_fail(j: JobRun, cleanup: RemoveOutcome) -> JobRun {
        JobRun { phase: JobPhase::Failed, temp_exists: cleanup is Failed, ..j }
    }

    /// Fails a running job after its temp file's removal was attempted with
    /// outcome `cleanup`. Returns whether the removal fault is to be attached
    /// to the job's error as secondary context — exactly when removal failed
    /// for a reason other than the file being already absent — without
    /// masking the original error.
    pub fn fail(&mut self, cleanup: RemoveOutcome) -> (attach_secondary: bool)
        requires
            old(self).wf(),
            old(self).phase is Running,
        ensures
            final(self).wf(),
            *final(self) == JobRun::spec_fail(*old(self), cleanup),
            attach_secondary == (cleanup is Failed),
    {
        self.phase = JobPhase::Failed;
        let attach = match cleanup {
            RemoveOutcome::Removed => {
                self.temp_exists = false;
                false
            },
            RemoveOutcome::AlreadyAbsent => {
                self.temp_exists = false;
                false
            },
            RemoveOutcome::Failed => {
                self.temp_exists = true;
                true
            },
        };
        attach
    }
}

/// Cleanup invariant: a job that reaches `Failed` with its temp file removed
/// (or already absent), and whose destination did not exist when it started,
/// leaves neither its temp file nor its destination file behind.
pub proof fn lemma_cleanup_on_failure(j: JobRun, cleanup: RemoveOutcome)
    requires
        j.wf(),
        j.phase is Running,
        !j.dest_existed,
        !(cleanup is Failed),
    ensures
        JobRun::spec_fail(j, cleanup).phase is Failed,
        !JobRun::spec_fail(j, cleanup).temp_exists,
        !JobRun::spec_fail(j, cleanup).dest_exists,
{
}

/// Atomicity invariant: a job that reached `Completed` left no temp file,
/// and its destination exists with a modification time no older than the
/// source's.
pub proof fn lemma_atomic_completion(j: JobRun)
    requires
        j.wf(),
        j.phase is Completed,
    ensures
        !j.temp_exists,
        j.dest_exists,
        j.dest_mtime matches Some(m) && m >= j.src_mtime,
{
}

/// The progress ratios a running job reports for a sequence of polls, in
/// poll order.
pub open spec fn spec_reported(j: JobRun, polls: Seq<(u64, u64)>) -> Seq<int>
    decreases polls.len(),
{
    if polls.len() == 0 {
        Seq::empty()
    } else {
        let v = next_ratio(j.last_ratio, polls[0].0, polls[0].1);
        seq![v] + spec_reported(
            JobRun { last_ratio: v as u32, ..j },
            polls.drop_first(),
        )
    }
}

/// Progress monotonicity: whatever positions and durations the engine
/// reports, the ratios a running job emits are non-decreasing, never below
/// what it already reported, and bounded by the whole. (Each emission comes
/// from `JobRun::progress`, which only a running job has; the terminal
/// transitions end the polling, and no transition leaves a terminal phase.)
pub proof fn lemma_progress_monotone(j: JobRun, polls: Seq<(u64, u64)>)
    requires
        j.last_ratio <= RATIO_WHOLE,
        forall|i: int| 0 <= i < polls.len() ==> (#[trigger] polls[i]).1 > 0,
    ensures
        forall|a: int, b: int|
            0 <= a <= b < spec_reported(j, polls).len() ==> #[trigger] spec_reported(j, polls)[a]
                <= #[trigger] spec_reported(j, polls)[b],
        forall|a: int|
            0 <= a < spec_reported(j, polls).len() ==> j.last_ratio <= #[trigger] spec_reported(
                j,
                polls,
            )[a] <= RATIO_WHOLE,
    decreases polls.len(),
{
    if polls.len() == 0 {
    } else {
        let v = next_ratio(j.last_ratio, polls[0].0, polls[0].1);
        assert(polls[0].1 > 0);
        assert(j.last_ratio <= v <= RATIO_WHOLE) by {
            if polls[0].0 < polls[0].1 {
                lemma_mul_strict_inequality(
                    polls[0].0 as int,
                    polls[0].1 as int,
                    RATIO_WHOLE as int,
                );
                lemma_multiply_divide_lt(
                    polls[0].0 as int * (RATIO_WHOLE as int),
                    polls[0].1 as int,
                    RATIO_WHOLE as int,
                );
            }
        }
        let j2 = JobRun { last_ratio: v as u32, ..j };
        assert(forall|i: int|
            0 <= i < polls.drop_first().len() ==> (#[trigger] polls.drop_first()[i]).1 > 0);
        lemma_progress_monotone(j2, polls.drop_first());
        let rest = spec_reported(j2, polls.drop_first());
        let whole = spec_reported(j, polls);
        assert(whole == seq![v] + rest);
        assert forall|a: int| 0 <= a < whole.len() implies j.last_ratio <= #[trigger] whole[a]
            <= RATIO_WHOLE by {
            if a > 0 {
                assert(whole[a] == rest[a - 1]);
            }
        }
        assert forall|a: int, b: int| 0 <= a <= b < whole.len() implies #[trigger] whole[a]
            <= #[trigger] whole[b] by {
            if a == 0 {
                if b > 0 {
                    assert(whole[b] == rest[b - 1]);
                    assert(rest[b - 1] >= j2.last_ratio);
                }
            } else {
                assert(whole[a] == rest[a - 1]);
                assert(whole[b] == rest[b - 1]);
            }
        }
    }
}

} // verus!

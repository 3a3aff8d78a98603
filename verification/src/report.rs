//! The reporting consumer's state machine.
//!
//! The consumer drains the message queue on its own timer and keeps, between
//! drains, what the rendering needs: the run's size, where failures are
//! logged, the jobs currently running with their last reported ratio, and how
//! many jobs have ended. Processing a message is pure bookkeeping, verified
//! here; the rendering itself stays outside the library.

use vstd::prelude::*;
use crate::bus::Msg;
use crate::plan::ConversionArgs;

verus! {

/// One running job, as the consumer tracks it: its run-unique id, the last
/// ratio it reported (none yet, right after its start), and what it converts.
#[derive(Debug)]
pub struct Task {
    pub id: usize,
    pub ratio: Option<u32>,
    pub args: ConversionArgs,
}

/// A message named a job the consumer does not know: it never started, or it
/// already ended.
#[derive(Clone, Copy, Debug, PartialEq, Eq, Structural)]
pub struct UnknownTask {
    pub id: usize,
}

/// The consumer's state between drains.
#[derive(Debug)]
pub struct State {
    /// Where failures are logged, once the run announced itself.
    pub log_path: Option<String>,
    /// How many jobs the run has, once it announced itself.
    pub task_len: Option<usize>,
    /// How many jobs have reached a terminal state.
    pub ended_tasks: usize,
    /// The running jobs, in start order.
    pub running_tasks: Vec<Task>,
    /// Whether any job has failed so far.
    pub has_errored: bool,
}

/// No two tracked tasks share an id.
pub open spec fn ids_unique(ts: Seq<Task>) -> bool {
    forall|a: int, b: int| 0 <= a < b < ts.len() ==> ts[a].id != ts[b].id
}

/// Whether some tracked task has this id.
pub open spec fn has_task(ts: Seq<Task>, id: usize) -> bool {
    exists|i: int| 0 <= i < ts.len() && ts[i].id == id
}

/// What a start message does to the tracked tasks: a fresh id is appended; a
/// known id (ids are run-unique, so this does not happen in a run) is reset.
pub open spec fn spec_started(o: Seq<Task>, n: Seq<Task>, id: usize, args: ConversionArgs) -> bool {
    if has_task(o, id) {
        exists|i: int|
            0 <= i < o.len() && o[i].id == id && n == o.update(
                i,
                Task { id, ratio: None, args },
            )
    } else {
        n == o.push(Task { id, ratio: None, args })
    }
}

/// What a progress message does: the task with the message's id carries the
/// new ratio; everything else stays.
pub open spec fn spec_progressed(o: Seq<Task>, n: Seq<Task>, id: usize, ratio: u32) -> bool {
    exists|i: int|
        0 <= i < o.len() && o[i].id == id && n == o.update(
            i,
            Task { ratio: Some(ratio), ..o[i] },
        )
}

/// What a terminal message does: the task with the message's id leaves the
/// tracked list; the others keep their order.
pub open spec fn spec_removed(o: Seq<Task>, n: Seq<Task>, id: usize) -> bool {
    exists|i: int| 0 <= i < o.len() && o[i].id == id && n == o.remove(i)
}

/// The run's header fields — where the log is and how many jobs there are —
/// carried over unchanged.
pub open spec fn header_kept(o: State, n: State) -> bool {
    n.log_path == o.log_path && n.task_len == o.task_len
}

impl State {
    /// The consumer's invariant: tracked ids are unique.
    pub open spec fn wf(&self) -> bool {
        ids_unique(self.running_tasks@)
    }

    /// The state before any message: nothing announced, nothing running.
    pub fn new() -> (s: State)
        ensures
            s.wf(),
            s.log_path is None,
            s.task_len is None,
            s.ended_tasks == 0,
            s.running_tasks@ == Seq::<Task>::empty(),
            !s.has_errored,
    {
        State {
            log_path: None,
            task_len: None,
            ended_tasks: 0,
            running_tasks: Vec::new(),
            has_errored: false,
        }
    }

    /// The position of the task with this id, if the consumer tracks one.
    fn find(&self, id: usize) -> (r: Option<usize>)
        ensures
            r matches Some(i) ==> i < self.running_tasks@.len() && self.running_tasks@[
                i as int
            ].id == id,
            r is None ==> !has_task(self.running_tasks@, id),
    {
        let mut k: usize = 0;
        while k < self.running_tasks.len()
            invariant
                0 <= k <= self.running_tasks@.len(),
                forall|j: int| 0 <= j < k ==> (#[trigger] self.running_tasks@[j]).id != id,
            decreases self.running_tasks@.len() - k,
        {
            if self.running_tasks[k].id == id {
                return Some(k);
            }
            k += 1;
        }
        None
    }

    /// Processes one drained message, as the per-variant clauses say: the
    /// run's announcement fills the header fields; a start begins tracking a
    /// task; progress updates its ratio; an end or an error retires it,
    /// counting it as ended and an error marking the run errored; the exit
    /// message changes nothing and tells the consumer (by the `false` result)
    /// to stop once the current drain is done. A progress, end or error
    /// message for an untracked id is a fault and changes nothing.
    pub fn process_msg(&mut self, msg: Msg) -> (r: Result<bool, UnknownTask>)
        requires
            old(self).wf(),
            old(self).ended_tasks < usize::MAX,
        ensures
            final(self).wf(),
            r matches Ok(cont) ==> cont == !(msg is Exit),
            r matches Err(u) ==> *final(self) == *old(self) && !has_task(
                old(self).running_tasks@,
                u.id,
            ) && (msg is TaskEnd || msg is TaskProgress || msg is TaskError),
            msg is Exit ==> r is Ok && *final(self) == *old(self),
            msg matches Msg::Init { task_len, log_path } ==> r is Ok && *final(self) == (State {
                task_len: Some(task_len),
                log_path: Some(log_path),
                ..*old(self)
            }),
            msg matches Msg::TaskStart { id, args } ==> r is Ok && header_kept(
                *old(self),
                *final(self),
            ) && final(self).ended_tasks == old(self).ended_tasks && final(self).has_errored == old(
                self,
            ).has_errored && spec_started(
                old(self).running_tasks@,
                final(self).running_tasks@,
                id,
                args,
            ),
            msg matches Msg::TaskProgress { id, ratio } ==> (r is Ok <==> has_task(
                old(self).running_tasks@,
                id,
            )) && (r is Ok ==> header_kept(*old(self), *final(self)) && final(self).ended_tasks
                == old(self).ended_tasks && final(self).has_errored == old(self).has_errored
                && spec_progressed(
                old(self).running_tasks@,
                final(self).running_tasks@,
                id,
                ratio,
            )),
            msg matches Msg::TaskEnd { id } ==> (r is Ok <==> has_task(
                old(self).running_tasks@,
                id,
            )) && (r is Ok ==> header_kept(*old(self), *final(self)) && final(self).ended_tasks
                == old(self).ended_tasks + 1 && final(self).has_errored == old(self).has_errored
                && spec_removed(old(self).running_tasks@, final(self).running_tasks@, id)),
            msg matches Msg::TaskError { id } ==> (r is Ok <==> has_task(
                old(self).running_tasks@,
                id,
            )) && (r is Ok ==> header_kept(*old(self), *final(self)) && final(self).ended_tasks
                == old(self).ended_tasks + 1 && final(self).has_errored && spec_removed(
                old(self).running_tasks@,
                final(self).running_tasks@,
                id,
            )),
    {
        match msg {
            Msg::Init { task_len, log_path } => {
                self.task_len = Some(task_len);
                self.log_path = Some(log_path);
                Ok(true)
            },
            Msg::Exit => Ok(false),
            Msg::TaskStart { id, args } => {
                let ghost o = self.running_tasks@;
                match self.find(id) {
                    Some(i) => {
                        let ghost w = i as int;
                        let _old_task = self.running_tasks.remove(i);
                        self.running_tasks.insert(i, Task { id, ratio: None, args });
                        proof {
                            assert(self.running_tasks@ =~= o.update(
                                w,
                                Task { id, ratio: None, args },
                            ));
                            assert(has_task(o, id));
                            lemma_unique_update(o, w, Task { id, ratio: None, args });
                        }
                    },
                    None => {
                        self.running_tasks.push(Task { id, ratio: None, args });
                        proof {
                            lemma_unique_push(o, Task { id, ratio: None, args });
                        }
                    },
                }
                Ok(true)
            },
            Msg::TaskProgress { id, ratio } => {
                let ghost o = self.running_tasks@;
                match self.find(id) {
                    Some(i) => {
                        let ghost w = i as int;
                        let t = self.running_tasks.remove(i);
                        let t2 = Task { ratio: Some(ratio), ..t };
                        self.running_tasks.insert(i, t2);
                        proof {
                            assert(self.running_tasks@ =~= o.update(w, t2));
                            lemma_unique_update(o, w, t2);
                        }
                        Ok(true)
                    },
                    None => Err(UnknownTask { id }),
                }
            },
            Msg::TaskEnd { id } => {
                let ghost o = self.running_tasks@;
                match self.find(id) {
                    Some(i) => {
                        let _t = self.running_tasks.remove(i);
                        self.ended_tasks = self.ended_tasks + 1;
                        proof {
                            lemma_unique_remove(o, i as int);
                        }
                        Ok(true)
                    },
                    None => Err(UnknownTask { id }),
                }
            },
            Msg::TaskError { id } => {
                let ghost o = self.running_tasks@;
                match self.find(id) {
                    Some(i) => {
                        let _t = self.running_tasks.remove(i);
                        self.ended_tasks = self.ended_tasks + 1;
                        self.has_errored = true;
                        proof {
                            lemma_unique_remove(o, i as int);
                        }
                        Ok(true)
                    },
                    None => Err(UnknownTask { id }),
                }
            },
        }
    }
}

/// Updating an entry with one of the same id keeps ids unique.
proof fn lemma_unique_update(ts: Seq<Task>, i: int, t: Task)
    requires
        ids_unique(ts),
        0 <= i < ts.len(),
        t.id == ts[i].id,
    ensures
        ids_unique(ts.update(i, t)),
{
}

/// Appending a task with a fresh id keeps ids unique.
proof fn lemma_unique_push(ts: Seq<Task>, t: Task)
    requires
        ids_unique(ts),
        !has_task(ts, t.id),
    ensures
        ids_unique(ts.push(t)),
{
}

/// Retiring an entry keeps ids unique.
proof fn lemma_unique_remove(ts: Seq<Task>, i: int)
    requires
        ids_unique(ts),
        0 <= i < ts.len(),
    ensures
        ids_unique(ts.remove(i)),
{
    ts.remove_ensures(i);
    assert forall|a: int, b: int| 0 <= a < b < ts.remove(i).len() implies ts.remove(i)[a].id
        != ts.remove(i)[b].id by {
        if a < i {
            assert(ts.remove(i)[a] == ts[a]);
        } else {
            assert(ts.remove(i)[a] == ts[a + 1]);
        }
        if b < i {
            assert(ts.remove(i)[b] == ts[b]);
        } else {
            assert(ts.remove(i)[b] == ts[b + 1]);
        }
    }
}

} // verus!

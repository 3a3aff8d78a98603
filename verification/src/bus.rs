//! The message queue between the job runners and the reporting consumer.
//!
//! Every job runner pushes lifecycle and progress messages; a single consumer
//! drains the queue on its own timer. Pushes append, and a drain hands the
//! consumer exactly the queued messages in push order — what one producer
//! pushes is observed in its push order. The sharing of the queue between
//! tasks (the channel or lock around it) lives outside the library.

use vstd::prelude::*;
use crate::plan::ConversionArgs;

verus! {

/// One message on the queue.
#[derive(Debug)]
pub enum Msg {
    /// The run begins: how many jobs it has, and where failures are logged.
    Init { task_len: usize, log_path: String },
    /// The run is over: the consumer stops after what is already queued.
    Exit,
    /// Job `id` entered `Running`.
    TaskStart { id: usize, args: ConversionArgs },
    /// Job `id` completed.
    TaskEnd { id: usize },
    /// Job `id` reports this much progress, in permille.
    TaskProgress { id: usize, ratio: u32 },
    /// Job `id` failed; its error is in the failure log.
    TaskError { id: usize },
}

/// The queue itself: messages in push order.
#[derive(Debug)]
pub struct MsgQueue {
    inner: Vec<Msg>,
}

impl View for MsgQueue {
    type V = Seq<Msg>;

    closed spec fn view(&self) -> Seq<Msg> {
        self.inner@
    }
}

impl MsgQueue {
    /// An empty queue.
    pub fn new() -> (q: MsgQueue)
        ensures
            q@ == Seq::<Msg>::empty(),
    {
        MsgQueue { inner: Vec::new() }
    }

    /// Appends one message; everything already queued stays, in order.
    pub fn push(&mut self, msg: Msg)
        ensures
            final(self)@ == old(self)@.push(msg),
    {
        self.inner.push(msg);
    }

    /// Exchanges the queued messages with the consumer's buffer: the consumer
    /// takes everything queued, in push order, and leaves its (drained)
    /// buffer behind.
    pub fn swap_inner(&mut self, other: &mut Vec<Msg>)
        ensures
            final(self)@ == old(other)@,
            final(other)@ == old(self)@,
    {
        core::mem::swap(&mut self.inner, other);
    }
}

} // verus!

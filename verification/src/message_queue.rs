use vstd::prelude::*;
use crate::queue::{spec_insert_pos, spec_sorted, OrderedLinkedList, PoppedResult};

verus! {

/// An ordinary task.
pub const FLAG_DEFAULT: usize = 0;

/// A task whose completion ends the worker that ran it.
pub const FLAG_TERMINATE: usize = 1;

/// A task that rendezvouses with the caller of a barrier.
pub const FLAG_BARRIER: usize = 2;

/// Whether every bit of `target` is set in `flag`.
pub fn has_flag(flag: usize, target: usize) -> (r: bool)
    ensures
        r == (flag & target == target),
{
    flag & target == target
}

/// A unit of deferred work. The worker pool implements this for its
/// concrete task kinds; the flag steers the worker loop, and `run`
/// consumes the task with the identity of the worker running it.
pub trait Task {
    fn get_flag(&self) -> usize;

    fn run(self: Box<Self>, id: usize);
}

/// The time-ordered queue of deferred work: entries are due-time
/// ordered with a stable tie-break, except for entries scheduled to the
/// end, which land after everything already queued.
pub struct MessageQueue<T> {
    pub list: OrderedLinkedList<T>,
}

impl<T> MessageQueue<T> {
    /// The queue's entries are sorted by due time.
    pub open spec fn wf(&self) -> bool {
        spec_sorted(self.list.items@)
    }

    pub fn new() -> (r: MessageQueue<T>)
        ensures
            r.list.items@.len() == 0,
            r.wf(),
    {
        MessageQueue { list: OrderedLinkedList::new() }
    }

    /// Schedules `handler` as due immediately.
    pub fn schedule(&mut self, handler: T, now_ms: u64)
        requires
            old(self).wf(),
        ensures
            final(self).wf(),
            final(self).list.items@ == old(self).list.items@.insert(
                spec_insert_pos(old(self).list.items@, now_ms),
                (handler, now_ms),
            ),
    {
        self.schedule_delayed(handler, 0, now_ms);
    }

    /// Schedules `handler` as due `delay_ms` after `now_ms`.
    pub fn schedule_delayed(&mut self, handler: T, delay_ms: u64, now_ms: u64)
        requires
            old(self).wf(),
            now_ms + delay_ms <= u64::MAX,
        ensures
            final(self).wf(),
            final(self).list.items@ == old(self).list.items@.insert(
                spec_insert_pos(old(self).list.items@, (now_ms + delay_ms) as u64),
                (handler, (now_ms + delay_ms) as u64),
            ),
    {
        self.list.push_by(handler, now_ms + delay_ms);
    }

    /// Schedules `handler` after everything already queued, whatever
    /// its due time: used to guarantee FIFO drain on shutdown.
    pub fn schedule_to_end(&mut self, handler: T)
        requires
            old(self).wf(),
        ensures
            final(self).wf(),
            final(self).list.items@.len() == old(self).list.items@.len() + 1,
            final(self).list.items@ == old(self).list.items@.push(
                (handler, if old(self).list.items@.len() == 0 {
                    0u64
                } else {
                    old(self).list.items@.last().1
                }),
            ),
    {
        self.list.push_end(handler);
    }

    /// The time-aware pop: the earliest entry if it is due at `now_ms`,
    /// the remaining delay if it is not, or emptiness.
    pub fn pop(&mut self, now_ms: u64) -> (r: PoppedResult<T, u64>)
        requires
            old(self).wf(),
        ensures
            final(self).wf(),
            match r {
                PoppedResult::Empty => old(self).list.items@.len() == 0 && *final(self)
                    == *old(self),
                PoppedResult::Unavailable(delay) => old(self).list.items@.len() > 0
                    && old(self).list.items@[0].1 > now_ms && delay == old(self).list.items@[0].1
                    - now_ms && *final(self) == *old(self),
                PoppedResult::Success(x) => old(self).list.items@.len() > 0 && x
                    == old(self).list.items@[0].0 && old(self).list.items@[0].1 <= now_ms
                    && final(self).list.items@ == old(self).list.items@.drop_first(),
            },
    {
        let result = self.list.pop_by(now_ms);
        match result {
            PoppedResult::Unavailable(target) => PoppedResult::Unavailable(target - now_ms),
            r => r,
        }
    }

    pub fn len(&self) -> (n: usize)
        ensures
            n == self.list.items@.len(),
    {
        self.list.len()
    }
}

/// What a worker should do next, given one pop outcome.
pub enum WorkerStep {
    Idle,
    Delay(u64),
    Execute,
}

/// The worker loop's decision for one pop outcome: block until work
/// arrives when the queue is empty, block for the remaining delay when
/// the earliest entry is not yet due, run the entry when it is.
pub fn plan_worker_step<T>(popped: &PoppedResult<T, u64>) -> (r: WorkerStep)
    ensures
        match popped {
            PoppedResult::Empty => r is Idle,
            PoppedResult::Unavailable(d) => r matches WorkerStep::Delay(w) && w == d,
            PoppedResult::Success(_) => r is Execute,
        },
{
    match popped {
        PoppedResult::Empty => WorkerStep::Idle,
        PoppedResult::Unavailable(d) => WorkerStep::Delay(*d),
        PoppedResult::Success(_) => WorkerStep::Execute,
    }
}

} // verus!

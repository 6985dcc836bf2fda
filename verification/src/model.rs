//! The pool as a single thread sees it when nothing else runs in between:
//! one value that holds the queue and both counts, and one step for each
//! thing that can happen to it.
//!
//! The steps are built from the rules that the executable code is proved
//! against: [`admission`] for the verdict on a submission, and
//! [`ChannelView::push`], [`ChannelView::front`] and [`ChannelView::rest`]
//! for the queue. The running pool takes the same steps, but reads the two
//! counts one after the other and without a common lock, so between threads
//! its steps can interleave in ways this model does not show.

use crate::admission;
use crate::spmc::{ChannelView, TryRecvError};
use crate::EnqueueError;
use vstd::prelude::*;

verus! {

/// A pool at one instant.
pub struct PoolView<J> {
    /// The most jobs the pool holds at once.
    pub capacity: usize,
    /// The jobs accepted and not yet handed to a worker, and whether the
    /// submitting side is gone.
    pub channel: ChannelView<J>,
    /// The number of jobs handed to a worker and not yet finished.
    pub executing: nat,
}

impl<J> PoolView<J> {
    /// A pool that has just been set up.
    pub open spec fn fresh(capacity: usize) -> Self {
        PoolView { capacity, channel: ChannelView::fresh(), executing: 0 }
    }

    /// The number of jobs waiting in the queue.
    pub open spec fn queued(self) -> nat {
        self.channel.pending.len()
    }

    /// The jobs the pool holds: queued and running together.
    pub open spec fn occupancy(self) -> nat {
        self.queued() + self.executing
    }

    /// The verdict on a submission made now.
    pub open spec fn verdict(self) -> Result<(), EnqueueError> {
        admission(self.queued() as int, self.executing as int, self.capacity)
    }

    /// The pool after `job` has been submitted: queued if the verdict is to
    /// accept it, dropped otherwise.
    pub open spec fn submit(self, job: J) -> Self {
        if self.verdict() is Ok {
            PoolView { channel: self.channel.push(job), ..self }
        } else {
            self
        }
    }

    /// The pool after a worker has looked for a job without waiting: the
    /// oldest queued job, if there is one, is now running.
    pub open spec fn begin(self) -> Self {
        if self.channel.front() is Ok {
            PoolView { channel: self.channel.rest(), executing: self.executing + 1, ..self }
        } else {
            self
        }
    }

    /// The pool after one running job has finished.
    pub open spec fn finish(self) -> Self
        recommends
            self.executing > 0,
    {
        PoolView { executing: (self.executing - 1) as nat, ..self }
    }

    /// The pool after the submitting side has gone.
    pub open spec fn close(self) -> Self {
        PoolView { channel: self.channel.close(), ..self }
    }

    /// The pool after one step. A job can only finish while one is running;
    /// where none is, the step changes nothing.
    pub open spec fn step(self, step: PoolStep<J>) -> Self {
        match step {
            PoolStep::Submit(job) => self.submit(job),
            PoolStep::Begin => self.begin(),
            PoolStep::Finish => if self.executing > 0 {
                self.finish()
            } else {
                self
            },
            PoolStep::Close => self.close(),
        }
    }

    /// The job that a submission adds to the queue, if the step is a
    /// submission and it is accepted.
    pub open spec fn accepts(self, step: PoolStep<J>) -> Seq<J> {
        match step {
            PoolStep::Submit(job) => if self.verdict() is Ok {
                seq![job]
            } else {
                Seq::empty()
            },
            _ => Seq::empty(),
        }
    }

    /// The job that a worker takes from the queue, if the step is a worker
    /// looking for work and there is some.
    pub open spec fn starts(self, step: PoolStep<J>) -> Seq<J> {
        match step {
            PoolStep::Begin => if self.queued() > 0 {
                seq![self.channel.pending[0]]
            } else {
                Seq::empty()
            },
            _ => Seq::empty(),
        }
    }
}

/// One thing that can happen to a pool.
pub enum PoolStep<J> {
    /// A job is submitted.
    Submit(J),
    /// A worker looks for a job.
    Begin,
    /// A running job finishes.
    Finish,
    /// The submitting side goes away.
    Close,
}

/// The pool after each of `steps` has been taken, first to last.
pub open spec fn after_steps<J>(pool: PoolView<J>, steps: Seq<PoolStep<J>>) -> PoolView<J>
    decreases steps.len(),
{
    if steps.len() == 0 {
        pool
    } else {
        after_steps(pool.step(steps[0]), steps.drop_first())
    }
}

/// The jobs accepted in the course of `steps`, in the order of their
/// submission.
pub open spec fn accepted<J>(pool: PoolView<J>, steps: Seq<PoolStep<J>>) -> Seq<J>
    decreases steps.len(),
{
    if steps.len() == 0 {
        Seq::empty()
    } else {
        pool.accepts(steps[0]) + accepted(pool.step(steps[0]), steps.drop_first())
    }
}

/// The jobs handed to workers in the course of `steps`, in the order in
/// which they were handed out.
pub open spec fn started<J>(pool: PoolView<J>, steps: Seq<PoolStep<J>>) -> Seq<J>
    decreases steps.len(),
{
    if steps.len() == 0 {
        Seq::empty()
    } else {
        pool.starts(steps[0]) + started(pool.step(steps[0]), steps.drop_first())
    }
}

/// The channel after each of `items` has been pushed, first to last.
pub open spec fn after_pushes<T>(channel: ChannelView<T>, items: Seq<T>) -> ChannelView<T>
    decreases items.len(),
{
    if items.len() == 0 {
        channel
    } else {
        after_pushes(channel.push(items[0]), items.drop_first())
    }
}

/// The channel after `n` attempts to receive.
pub open spec fn after_pops<T>(channel: ChannelView<T>, n: nat) -> ChannelView<T>
    decreases n,
{
    if n == 0 {
        channel
    } else {
        after_pops(channel.rest(), (n - 1) as nat)
    }
}

/// What the attempt to receive that follows `n` earlier attempts yields.
pub open spec fn nth_pop<T>(channel: ChannelView<T>, n: nat) -> Result<T, TryRecvError> {
    after_pops(channel, n).front()
}

} // verus!

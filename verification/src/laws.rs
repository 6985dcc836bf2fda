//! What follows from the rules of the channel and of admission, stated once
//! and proved.

use crate::admission;
use crate::model::{
    accepted, after_pops, after_pushes, after_steps, nth_pop, started, PoolStep, PoolView,
};
use crate::spmc::{settled, ChannelView, RecvError, TryRecvError};
use crate::EnqueueError;
use vstd::prelude::*;

verus! {

/// A submission made while the pool holds fewer jobs than its capacity is
/// accepted, and lengthens the queue by exactly the submitted job; nothing
/// else changes.
pub proof fn submission_below_capacity_is_queued<J>(pool: PoolView<J>, job: J)
    requires
        pool.occupancy() < pool.capacity,
    ensures
        admission(pool.queued() as int, pool.executing as int, pool.capacity) == Ok::<
            (),
            EnqueueError,
        >(()),
        pool.verdict() == Ok::<(), EnqueueError>(()),
        pool.submit(job).queued() == pool.queued() + 1,
        pool.submit(job).channel.pending == pool.channel.pending.push(job),
        pool.submit(job).executing == pool.executing,
        pool.submit(job).capacity == pool.capacity,
        pool.submit(job).channel.closed == pool.channel.closed,
{
}

/// A submission made while the pool holds exactly as many jobs as its
/// capacity is refused with the capacity, and leaves the pool as it was.
pub proof fn submission_at_capacity_is_refused<J>(pool: PoolView<J>, job: J)
    requires
        pool.occupancy() == pool.capacity,
    ensures
        admission(pool.queued() as int, pool.executing as int, pool.capacity) == Err::<
            (),
            EnqueueError,
        >(EnqueueError { max_queue_depth: pool.capacity }),
        pool.verdict() == Err::<(), EnqueueError>(
            EnqueueError { max_queue_depth: pool.capacity },
        ),
        pool.submit(job) == pool,
{
}

/// The verdict is a refusal exactly when the pool holds as many jobs as
/// its capacity.
pub proof fn refusal_means_full<J>(pool: PoolView<J>)
    ensures
        pool.verdict() is Err <==> pool.occupancy() == pool.capacity,
{
}

/// When a job finishes, the count of running jobs goes down by exactly one
/// and the queue is untouched. If the pool was full, there is now room for
/// one more job and no more: the next submission is accepted and fills the
/// pool again.
pub proof fn finished_job_frees_one_slot<J>(pool: PoolView<J>, next: J, other: J)
    requires
        pool.executing > 0,
    ensures
        pool.finish().executing == pool.executing - 1,
        pool.finish().channel == pool.channel,
        pool.finish().occupancy() == pool.occupancy() - 1,
        pool.occupancy() == pool.capacity ==> {
            &&& pool.finish().verdict() is Ok
            &&& pool.finish().submit(next).occupancy() == pool.capacity
            &&& pool.finish().submit(next).verdict() is Err
            &&& pool.finish().submit(next).submit(other) == pool.finish().submit(next)
        },
{
}

/// A worker that takes a job moves it from the queue to the running jobs:
/// the pool holds as many jobs as before.
pub proof fn taking_a_job_keeps_occupancy<J>(pool: PoolView<J>)
    ensures
        pool.begin().occupancy() == pool.occupancy(),
        pool.queued() > 0 ==> {
            &&& pool.begin().queued() == pool.queued() - 1
            &&& pool.begin().executing == pool.executing + 1
        },
        pool.queued() == 0 ==> pool.begin() == pool,
{
}

/// As long as steps are taken one at a time, a pool never holds more jobs
/// than its capacity. This is why the admission rule may test for equality.
pub proof fn occupancy_stays_within_capacity<J>(pool: PoolView<J>, job: J)
    requires
        pool.occupancy() <= pool.capacity,
    ensures
        PoolView::<J>::fresh(pool.capacity).occupancy() <= pool.capacity,
        pool.submit(job).occupancy() <= pool.capacity,
        pool.begin().occupancy() <= pool.capacity,
        pool.executing > 0 ==> pool.finish().occupancy() <= pool.capacity,
        pool.close().occupancy() <= pool.capacity,
{
}

/// A pool that is run one step at a time from the moment it is set up never
/// holds more jobs than its capacity, and its capacity never changes.
pub proof fn pool_never_exceeds_capacity<J>(capacity: usize, steps: Seq<PoolStep<J>>)
    ensures
        after_steps(PoolView::fresh(capacity), steps).occupancy() <= capacity,
        after_steps(PoolView::fresh(capacity), steps).capacity == capacity,
{
    steps_keep_occupancy_within_capacity(PoolView::fresh(capacity), steps);
}

/// The same from any pool within its capacity.
pub proof fn steps_keep_occupancy_within_capacity<J>(pool: PoolView<J>, steps: Seq<PoolStep<J>>)
    requires
        pool.occupancy() <= pool.capacity,
    ensures
        after_steps(pool, steps).occupancy() <= pool.capacity,
        after_steps(pool, steps).capacity == pool.capacity,
    decreases steps.len(),
{
    if steps.len() > 0 {
        steps_keep_occupancy_within_capacity(pool.step(steps[0]), steps.drop_first());
    }
}

/// No accepted job is lost, none is handed out twice, and jobs are handed to
/// workers in the order in which they were accepted: whatever steps are
/// taken, the jobs that were queued at the start followed by the jobs
/// accepted since are the jobs handed out since followed by the jobs still
/// queued.
pub proof fn accepted_jobs_are_started_in_order<J>(pool: PoolView<J>, steps: Seq<PoolStep<J>>)
    ensures
        pool.channel.pending + accepted(pool, steps) == started(pool, steps) + after_steps(
            pool,
            steps,
        ).channel.pending,
    decreases steps.len(),
{
    if steps.len() == 0 {
        assert(pool.channel.pending + accepted(pool, steps) =~= started(pool, steps)
            + pool.channel.pending);
    } else {
        let next = pool.step(steps[0]);
        let rest = steps.drop_first();
        accepted_jobs_are_started_in_order(next, rest);
        assert(pool.channel.pending + pool.accepts(steps[0]) =~= pool.starts(steps[0])
            + next.channel.pending);
        assert(pool.channel.pending + accepted(pool, steps) =~= (pool.channel.pending
            + pool.accepts(steps[0])) + accepted(next, rest));
        assert(started(pool, steps) + after_steps(pool, steps).channel.pending =~= pool.starts(
            steps[0],
        ) + (started(next, rest) + after_steps(next, rest).channel.pending));
        assert((pool.starts(steps[0]) + next.channel.pending) + accepted(next, rest)
            =~= pool.starts(steps[0]) + (next.channel.pending + accepted(next, rest)));
    }
}

/// Once the submitting side is gone, it stays gone.
pub proof fn closed_pool_stays_closed<J>(pool: PoolView<J>, steps: Seq<PoolStep<J>>)
    requires
        pool.channel.closed,
    ensures
        after_steps(pool, steps).channel.closed,
    decreases steps.len(),
{
    if steps.len() > 0 {
        closed_pool_stays_closed(pool.step(steps[0]), steps.drop_first());
    }
}

/// No step reopens a closed channel.
pub proof fn closed_stays_closed<T>(channel: ChannelView<T>, item: T)
    requires
        channel.closed,
    ensures
        channel.push(item).closed,
        channel.rest().closed,
        channel.close().closed,
{
}

/// Closing a channel loses nothing: what was pending is still pending, in
/// the same order.
pub proof fn closing_keeps_pending_items<T>(channel: ChannelView<T>)
    ensures
        channel.close().pending == channel.pending,
        channel.close().closed,
        !channel.close().must_wait(),
{
}

/// An attempt to receive reports the closure only when the channel is both
/// closed and drained, and then always.
pub proof fn closure_is_seen_only_when_drained<T>(channel: ChannelView<T>)
    ensures
        channel.front() == Err::<T, TryRecvError>(TryRecvError::ChannelClosed) <==> channel.closed
            && channel.pending.len() == 0,
        channel.front() == Err::<T, TryRecvError>(TryRecvError::NoValue) <==> channel.must_wait(),
        !channel.must_wait() ==> (settled(channel.front()) == Err::<T, RecvError>(
            RecvError::ChannelClosed,
        ) <==> channel.closed && channel.pending.len() == 0),
{
}

/// Pushing a sequence of items appends them, in order, behind what was
/// pending.
pub proof fn pushes_append_in_order<T>(channel: ChannelView<T>, items: Seq<T>)
    ensures
        after_pushes(channel, items).pending == channel.pending + items,
        after_pushes(channel, items).closed == channel.closed,
    decreases items.len(),
{
    if items.len() == 0 {
        assert(channel.pending + items =~= channel.pending);
    } else {
        pushes_append_in_order(channel.push(items[0]), items.drop_first());
        assert(channel.pending.push(items[0]) + items.drop_first() =~= channel.pending + items);
    }
}

/// Receiving `n` times removes the `n` oldest items, or all of them if
/// there are fewer, and never touches the closed mark.
pub proof fn pops_remove_oldest_first<T>(channel: ChannelView<T>, n: nat)
    ensures
        after_pops(channel, n).closed == channel.closed,
        n <= channel.pending.len() ==> after_pops(channel, n).pending == channel.pending.skip(
            n as int,
        ),
        n >= channel.pending.len() ==> after_pops(channel, n).pending.len() == 0,
    decreases n,
{
    if n == 0 {
        assert(channel.pending.skip(0) =~= channel.pending);
    } else {
        pops_remove_oldest_first(channel.rest(), (n - 1) as nat);
        if 0 < n <= channel.pending.len() {
            assert(channel.pending.drop_first().skip(n - 1) =~= channel.pending.skip(n as int));
        }
    }
}

/// Items are received in the order in which they were sent: after a
/// sequence of sends into an empty channel, the receive that follows
/// `i` earlier ones yields the item of the send that followed `i` earlier
/// ones, and when all have been received the channel is empty again.
pub proof fn items_arrive_in_sending_order<T>(items: Seq<T>, i: nat)
    requires
        i < items.len(),
    ensures
        nth_pop(after_pushes(ChannelView::fresh(), items), i) == Ok::<T, TryRecvError>(
            items[i as int],
        ),
        after_pops(after_pushes(ChannelView::<T>::fresh(), items), items.len()).pending.len() == 0,
{
    let filled = after_pushes(ChannelView::<T>::fresh(), items);
    pushes_append_in_order(ChannelView::<T>::fresh(), items);
    assert(filled.pending =~= items);
    pops_remove_oldest_first(filled, i);
    pops_remove_oldest_first(filled, items.len());
}

/// The same holds of any channel: the receive that follows `i` earlier ones
/// yields the item that was `i`-th oldest, whether or not the channel is
/// closed.
pub proof fn pending_items_are_received_oldest_first<T>(channel: ChannelView<T>, i: nat)
    requires
        i < channel.pending.len(),
    ensures
        nth_pop(channel, i) == Ok::<T, TryRecvError>(channel.pending[i as int]),
{
    pops_remove_oldest_first(channel, i);
}

/// Once the producer is gone, receivers get every pending item, oldest
/// first, before any of them is told that the channel is closed; from then
/// on every receive is told so, and none has to wait.
pub proof fn closed_channel_drains_before_it_reports_closure<T>(channel: ChannelView<T>, n: nat)
    ensures
        n < channel.pending.len() ==> nth_pop(channel.close(), n) == Ok::<T, TryRecvError>(
            channel.pending[n as int],
        ),
        n >= channel.pending.len() ==> nth_pop(channel.close(), n) == Err::<T, TryRecvError>(
            TryRecvError::ChannelClosed,
        ),
        !after_pops(channel.close(), n).must_wait(),
{
    pops_remove_oldest_first(channel.close(), n);
}

} // verus!

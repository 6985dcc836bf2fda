//! A blocking first-in, first-out channel with one producer handle and any
//! number of consumer handles.
//!
//! [`ChannelState`] is what the channel holds at one instant and carries the
//! rules of the channel, each with an exact contract. [`Sender`] and
//! [`Receiver`] share one such state behind a lock; what their methods find
//! there depends on every other thread, so their own contracts say only what
//! holds of every outcome.

use crate::sync::{guarded, lock, notify_all, notify_one};
use std::collections::VecDeque;
use std::sync::{Arc, Condvar, Mutex, MutexGuard};
use vstd::prelude::*;

verus! {

/// A blocking receive found the channel closed and drained.
#[derive(Debug, PartialEq, Eq, Clone, Copy, Structural)]
pub enum RecvError {
    ChannelClosed,
}

/// A non-blocking receive found nothing to hand out.
#[derive(Debug, PartialEq, Eq, Clone, Copy, Structural)]
pub enum TryRecvError {
    /// The channel is closed and drained: nothing will ever arrive.
    ChannelClosed,
    /// The channel is empty for now, but still open.
    NoValue,
}

/// The mathematical content of a channel: the items awaiting delivery,
/// oldest first, and whether the producer is gone.
pub struct ChannelView<T> {
    pub pending: Seq<T>,
    pub closed: bool,
}

impl<T> ChannelView<T> {
    /// An open channel with nothing in it.
    pub open spec fn fresh() -> Self {
        ChannelView { pending: Seq::empty(), closed: false }
    }

    /// The channel after `item` has been appended behind everything pending.
    pub open spec fn push(self, item: T) -> Self {
        ChannelView { pending: self.pending.push(item), closed: self.closed }
    }

    /// The channel after the producer has gone; pending items stay.
    pub open spec fn close(self) -> Self {
        ChannelView { pending: self.pending, closed: true }
    }

    /// What one attempt to receive yields: the oldest pending item if there
    /// is one, whether or not the channel is closed; otherwise the reason
    /// there is none.
    pub open spec fn front(self) -> Result<T, TryRecvError> {
        if self.pending.len() > 0 {
            Ok(self.pending[0])
        } else if self.closed {
            Err(TryRecvError::ChannelClosed)
        } else {
            Err(TryRecvError::NoValue)
        }
    }

    /// The channel after one attempt to receive: the oldest item is gone if
    /// there was one, and nothing else has changed.
    pub open spec fn rest(self) -> Self {
        if self.pending.len() > 0 {
            ChannelView { pending: self.pending.drop_first(), closed: self.closed }
        } else {
            self
        }
    }

    /// A blocking receiver has to wait exactly when the channel is empty and
    /// still open.
    pub open spec fn must_wait(self) -> bool {
        self.pending.len() == 0 && !self.closed
    }
}

/// What a channel holds at one instant.
pub struct ChannelState<T> {
    queue: VecDeque<T>,
    closed: bool,
}

impl<T> View for ChannelState<T> {
    type V = ChannelView<T>;

    closed spec fn view(&self) -> ChannelView<T> {
        ChannelView { pending: self.queue@, closed: self.closed }
    }
}

impl<T> ChannelState<T> {
    /// An open, empty channel.
    pub fn new() -> (state: Self)
        ensures
            state@ == ChannelView::<T>::fresh(),
    {
        ChannelState { queue: VecDeque::new(), closed: false }
    }

    /// Appends `item` behind everything pending. Never refuses: the channel
    /// itself is unbounded, and accepts items even when closed.
    pub fn push(&mut self, item: T)
        ensures
            final(self)@ == old(self)@.push(item),
    {
        self.queue.push_back(item);
    }

    /// Hands out the oldest pending item, or says why there is none.
    pub fn try_pop(&mut self) -> (taken: Result<T, TryRecvError>)
        ensures
            taken == old(self)@.front(),
            final(self)@ == old(self)@.rest(),
    {
        match self.queue.pop_front() {
            Some(item) => {
                proof {
                    assert(old(self).queue@.drop_first() =~= self.queue@);
                }
                Ok(item)
            },
            None => {
                if self.closed {
                    Err(TryRecvError::ChannelClosed)
                } else {
                    Err(TryRecvError::NoValue)
                }
            },
        }
    }

    /// One round of a blocking receive: tries to take the oldest item,
    /// leaves the outcome in `slot` and tells whether the receiver has to
    /// wait and try again.
    pub fn poll(&mut self, slot: &mut Result<T, TryRecvError>) -> (waiting: bool)
        ensures
            *final(slot) == old(self)@.front(),
            final(self)@ == old(self)@.rest(),
            waiting == old(self)@.must_wait(),
    {
        *slot = self.try_pop();
        match slot {
            Err(TryRecvError::NoValue) => true,
            _ => false,
        }
    }

    /// The number of items awaiting delivery.
    pub fn len(&self) -> (n: usize)
        ensures
            n == self@.pending.len(),
    {
        self.queue.len()
    }

    /// Whether the producer is gone.
    pub fn is_closed(&self) -> (closed: bool)
        ensures
            closed == self@.closed,
    {
        self.closed
    }

    /// Marks the producer as gone. Pending items stay deliverable, and the
    /// mark is never taken back.
    pub fn close(&mut self)
        ensures
            final(self)@ == old(self)@.close(),
        opens_invariants none
        no_unwind
    {
        self.closed = true;
    }
}

/// One channel: its state behind a lock, and the condition variable on which
/// blocked receivers sleep until an item arrives or the channel closes.
///
/// Handles are told apart by the channel they refer to, see
/// [`Sender::channel`] and [`Receiver::channel`]. What the channel holds is
/// not part of its value: it changes under every handle.
#[verifier::reject_recursive_types(T)]
pub struct Channel<T> {
    state: Mutex<ChannelState<T>>,
    queue_not_empty: Condvar,
}

/// The producer's handle. There is one per channel; dropping it closes the
/// channel.
#[verifier::reject_recursive_types(T)]
pub struct Sender<T: Send>(Arc<Channel<T>>);

/// A consumer's handle. A clone takes from the same channel as the handle it
/// was cloned from, so every item goes to exactly one of them.
#[verifier::reject_recursive_types(T)]
pub struct Receiver<T: Send>(Arc<Channel<T>>);

/// A receiver turned into a sequence of items that ends when the channel is
/// closed and drained.
#[verifier::reject_recursive_types(T)]
pub struct ReceiveIterator<T: Send> {
    receiver: Receiver<T>,
}

/// `Condvar::wait_while` with [`ChannelState::poll`] as its condition:
/// polls the guarded state, and as long as the poll says to wait, releases
/// the lock, sleeps until notified, takes the lock again and polls anew.
/// When a poll does not say to wait, the lock is released and the outcome
/// of that poll is returned.
///
/// Trusted: that `wait_while` returns only after its condition has returned
/// `false`, which `poll` does only after it has left something other than
/// `NoValue` in the slot. This rests on the lock never being poisoned, which
/// holds because only verified code of this module runs while it is held.
/// The call does not return while the channel stays open and empty.
#[verifier::external_body]
fn wait_for_item<'a, T>(
    queue_not_empty: &Condvar,
    guard: MutexGuard<'a, ChannelState<T>>,
) -> (taken: Result<T, TryRecvError>)
    ensures
        !(taken matches Err(TryRecvError::NoValue)),
{
    let mut taken = Err(TryRecvError::NoValue);
    let _released = queue_not_empty.wait_while(guard, |state| state.poll(&mut taken));
    taken
}

/// Makes a channel and hands out its two ends. The channel starts open and
/// empty.
pub fn channel<T: Send>() -> (ends: (Sender<T>, Receiver<T>))
    ensures
        ends.0.channel() == ends.1.channel(),
{
    let channel = Arc::new(
        Channel { state: Mutex::new(ChannelState::new()), queue_not_empty: Condvar::new() },
    );
    (Sender(Arc::clone(&channel)), Receiver(channel))
}

/// What a blocking receive reports for the outcome of the poll that ended
/// its wait.
pub open spec fn settled<T>(taken: Result<T, TryRecvError>) -> Result<T, RecvError> {
    match taken {
        Ok(item) => Ok(item),
        Err(_) => Err(RecvError::ChannelClosed),
    }
}

/// Turns the outcome of the poll that ended a blocking receive into the
/// receive's result. A wait never ends on `NoValue`.
pub fn settle<T>(taken: Result<T, TryRecvError>) -> (received: Result<T, RecvError>)
    requires
        !(taken matches Err(TryRecvError::NoValue)),
    ensures
        received == settled(taken),
        received is Err <==> taken == Err::<T, TryRecvError>(TryRecvError::ChannelClosed),
{
    match taken {
        Ok(item) => Ok(item),
        Err(_) => Err(RecvError::ChannelClosed),
    }
}

impl<T: Send> Sender<T> {
    /// The channel that this sender feeds.
    pub closed spec fn channel(&self) -> Channel<T> {
        *self.0
    }

    /// Appends `t` to the channel and wakes one blocked receiver. Never
    /// blocks beyond the wait for the lock, and never refuses.
    ///
    /// Under the lock this is [`ChannelState::push`].
    pub fn send(&self, t: T) {
        let mut guard = lock(&self.0.state);
        guarded(&mut guard).push(t);
        notify_one(&self.0.queue_not_empty);
    }

    /// The number of items awaiting delivery at the moment the lock was
    /// held. Other threads may have changed it by the time it is returned.
    pub fn queued(&self) -> (n: usize) {
        let mut guard = lock(&self.0.state);
        guarded(&mut guard).len()
    }
}

impl<T: Send> Drop for Sender<T> {
    /// Closes the channel and wakes every blocked receiver, so that each
    /// sees the closure once the pending items are gone.
    ///
    /// Under the lock this is [`ChannelState::close`].
    fn drop(&mut self)
        opens_invariants none
        no_unwind
    {
        let mut guard = lock(&self.0.state);
        guarded(&mut guard).close();
        notify_all(&self.0.queue_not_empty);
    }
}

impl<T: Send> Receiver<T> {
    /// The channel that this receiver takes from.
    pub closed spec fn channel(&self) -> Channel<T> {
        *self.0
    }

    /// Takes the oldest pending item, waiting for one if the channel is
    /// empty and open. Fails only when the channel is closed and drained.
    ///
    /// Under the lock each round is [`ChannelState::poll`], and the result
    /// is [`settle`] of the round that ended the wait.
    pub fn recv(&self) -> (received: Result<T, RecvError>) {
        let guard = lock(&self.0.state);
        let taken = wait_for_item(&self.0.queue_not_empty, guard);
        settle(taken)
    }

    /// Takes the oldest pending item if there is one, and never waits for
    /// an item.
    ///
    /// Under the lock this is [`ChannelState::try_pop`].
    pub fn try_recv(&self) -> (received: Result<T, TryRecvError>) {
        let mut guard = lock(&self.0.state);
        guarded(&mut guard).try_pop()
    }

    /// The number of items awaiting delivery at the moment the lock was
    /// held. Other threads may have changed it by the time it is returned.
    pub fn queued(&self) -> (n: usize) {
        let mut guard = lock(&self.0.state);
        guarded(&mut guard).len()
    }
}

impl<T: Send> Clone for Receiver<T> {
    /// Another handle on the same channel; the queue is not duplicated.
    fn clone(&self) -> (other: Self)
        ensures
            other.channel() == self.channel(),
    {
        Receiver(Arc::clone(&self.0))
    }
}

impl<T: Send> ReceiveIterator<T> {
    /// The receiver that the items are taken from.
    pub closed spec fn source(&self) -> Receiver<T> {
        self.receiver
    }
}

impl<T: Send> IntoIterator for Receiver<T> {
    type Item = T;

    type IntoIter = ReceiveIterator<T>;

    fn into_iter(self) -> (iter: ReceiveIterator<T>)
        ensures
            iter.source() == self,
    {
        ReceiveIterator { receiver: self }
    }
}

impl<T: Send> Iterator for ReceiveIterator<T> {
    type Item = T;

    /// A blocking receive; the sequence ends when the channel is closed and
    /// drained.
    fn next(&mut self) -> (item: Option<T>)
        ensures
            final(self).source() == old(self).source(),
    {
        match self.receiver.recv() {
            Ok(item) => Some(item),
            Err(RecvError::ChannelClosed) => None,
        }
    }
}

impl<T: Send> vstd::std_specs::iter::IteratorSpecImpl for ReceiveIterator<T> {
    /// The items to come depend on what other threads send and take, so no
    /// sequence of them is promised.
    open spec fn obeys_prophetic_iter_laws(&self) -> bool {
        false
    }

    open spec fn remaining(&self) -> Seq<T> {
        Seq::empty()
    }

    /// The sequence ends only if the sender is dropped.
    open spec fn will_return_none(&self) -> bool {
        false
    }

    open spec fn decrease(&self) -> Option<nat> {
        None
    }

    open spec fn initial_value_relation(&self, init: &Self) -> bool {
        true
    }

    open spec fn peek(&self, index: int) -> Option<T> {
        None
    }
}

} // verus!

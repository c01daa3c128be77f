//! The mathematical model of a channel: its state, the effect of each
//! operation on it, and the laws that the operations obey.
use vstd::prelude::*;

use crate::receiver::Poll;
use crate::sender::SendError;

verus! {

/// `ids` without `id`: its first occurrence is removed, if there is one.
pub open spec fn without(ids: Seq<u64>, id: u64) -> Seq<u64> {
    if ids.contains(id) {
        ids.remove_value(id)
    } else {
        ids
    }
}

/// The abstract state of a channel.
///
/// `pending` holds the receivers that suspended on an empty queue, oldest
/// first. `notified` holds the receivers that were woken and have not polled
/// since, in wake order: the scheduler retries these. A poll takes the front
/// value whenever one is buffered, whoever polls.
pub ghost struct ChannelState<T> {
    pub capacity: nat,
    pub queue: Seq<T>,
    pub senders: nat,
    pub receivers: nat,
    pub pending: Seq<u64>,
    pub notified: Seq<u64>,
    pub next_id: nat,
}

/// One operation on a channel, as seen by the model.
pub ghost enum Op<T> {
    Send(T),
    Poll(u64),
    CloneSender,
    DropSender,
    CloneReceiver,
    DropReceiver(u64),
}

impl<T> ChannelState<T> {
    /// The state that `channel` creates: one sender, one receiver with id 0.
    pub open spec fn initial(capacity: nat) -> Self {
        ChannelState {
            capacity,
            queue: Seq::empty(),
            senders: 1,
            receivers: 1,
            pending: Seq::empty(),
            notified: Seq::empty(),
            next_id: 1,
        }
    }

    /// The invariant of every reachable state.
    pub open spec fn wf(self) -> bool {
        &&& self.queue.len() <= self.capacity
        &&& self.pending.no_duplicates()
        &&& self.notified.no_duplicates()
        &&& forall|x: u64| #[trigger] self.pending.contains(x) ==> !self.notified.contains(x)
    }

    /// No sender is left and nothing is buffered: the stream has ended.
    pub open spec fn is_closed_for_receivers(self) -> bool {
        self.queue.len() == 0 && self.senders == 0
    }

    /// The error of a send in this state, if it fails.
    /// A channel with no receiver reports `Closed` even when it is also full.
    pub open spec fn send_error(self) -> Option<SendError> {
        if self.receivers == 0 {
            Some(SendError::Closed)
        } else if self.queue.len() >= self.capacity {
            Some(SendError::Full)
        } else {
            None
        }
    }

    /// The oldest suspended receiver, if any, moves to the woken list.
    pub open spec fn wake_one(self) -> Self {
        if self.pending.len() > 0 {
            ChannelState {
                pending: self.pending.drop_first(),
                notified: self.notified.push(self.pending[0]),
                ..self
            }
        } else {
            self
        }
    }

    /// Every suspended receiver moves to the woken list, oldest first.
    pub open spec fn wake_all(self) -> Self {
        ChannelState { pending: Seq::empty(), notified: self.notified + self.pending, ..self }
    }

    /// The state after a send of `v`.
    pub open spec fn after_send(self, v: T) -> Self {
        if self.send_error() is Some {
            self
        } else {
            ChannelState { queue: self.queue.push(v), ..self }.wake_one()
        }
    }

    /// The receiver `id` no longer waits, in either list.
    pub open spec fn unregister(self, id: u64) -> Self {
        ChannelState {
            pending: without(self.pending, id),
            notified: without(self.notified, id),
            ..self
        }
    }

    /// The receiver `id` waits for a value; one already suspended keeps its place.
    pub open spec fn register(self, id: u64) -> Self {
        ChannelState {
            pending: if self.pending.contains(id) {
                self.pending
            } else {
                self.pending.push(id)
            },
            notified: without(self.notified, id),
            ..self
        }
    }

    /// What a poll by the receiver `id` returns.
    pub open spec fn poll_result(self, id: u64) -> Poll<T> {
        if self.is_closed_for_receivers() {
            Poll::Ready(None)
        } else if self.queue.len() > 0 {
            Poll::Ready(Some(self.queue[0]))
        } else {
            Poll::Pending
        }
    }

    /// The state after a poll by the receiver `id`.
    pub open spec fn after_poll(self, id: u64) -> Self {
        if self.is_closed_for_receivers() {
            self.unregister(id)
        } else if self.queue.len() > 0 {
            ChannelState { queue: self.queue.drop_first(), ..self.unregister(id) }
        } else {
            self.register(id)
        }
    }

    /// The state after a sender is cloned.
    pub open spec fn after_clone_sender(self) -> Self {
        ChannelState { senders: self.senders + 1, ..self }
    }

    /// The state after a sender is dropped: the last one wakes every
    /// suspended receiver, so that each observes the end of the stream.
    pub open spec fn after_drop_sender(self) -> Self {
        if self.senders <= 1 {
            ChannelState { senders: 0, ..self }.wake_all()
        } else {
            ChannelState { senders: (self.senders - 1) as nat, ..self }
        }
    }

    /// The state after a receiver is cloned; the clone gets the id `next_id`.
    pub open spec fn after_clone_receiver(self) -> Self {
        ChannelState { receivers: self.receivers + 1, next_id: self.next_id + 1, ..self }
    }

    /// The state after the receiver `id` is dropped: its registrations go,
    /// and when it had been woken for a value that is still buffered, the
    /// next suspended receiver is woken in its place.
    pub open spec fn after_drop_receiver(self, id: u64) -> Self {
        let s = ChannelState {
            receivers: if self.receivers > 0 {
                (self.receivers - 1) as nat
            } else {
                0
            },
            ..self.unregister(id)
        };
        if self.notified.contains(id) && s.queue.len() > 0 {
            s.wake_one()
        } else {
            s
        }
    }

    /// Whether `op` may be applied: the handle that performs it must exist.
    pub open spec fn allows(self, op: Op<T>) -> bool {
        match op {
            Op::CloneSender => self.senders > 0,
            Op::DropSender => self.senders > 0,
            Op::CloneReceiver => self.receivers > 0,
            Op::DropReceiver(_) => self.receivers > 0,
            Op::Send(_) => self.senders > 0,
            Op::Poll(_) => true,
        }
    }

    /// The state after `op`.
    pub open spec fn step(self, op: Op<T>) -> Self {
        match op {
            Op::Send(v) => self.after_send(v),
            Op::Poll(id) => self.after_poll(id),
            Op::CloneSender => self.after_clone_sender(),
            Op::DropSender => self.after_drop_sender(),
            Op::CloneReceiver => self.after_clone_receiver(),
            Op::DropReceiver(id) => self.after_drop_receiver(id),
        }
    }

    /// Whether every operation of `ops` may be applied in turn.
    pub open spec fn allows_all(self, ops: Seq<Op<T>>) -> bool
        decreases ops.len(),
    {
        if ops.len() == 0 {
            true
        } else {
            self.allows(ops[0]) && self.step(ops[0]).allows_all(ops.drop_first())
        }
    }

    /// The state after the operations of `ops`, in turn.
    pub open spec fn run(self, ops: Seq<Op<T>>) -> Self
        decreases ops.len(),
    {
        if ops.len() == 0 {
            self
        } else {
            self.step(ops[0]).run(ops.drop_first())
        }
    }

    /// The value that `op` puts into the queue, if it is a send that succeeds.
    pub open spec fn accepted_by(self, op: Op<T>) -> Seq<T> {
        match op {
            Op::Send(v) => if self.send_error() is None {
                seq![v]
            } else {
                Seq::empty()
            },
            _ => Seq::empty(),
        }
    }

    /// The value that `op` hands out, if it is a poll that returns one.
    pub open spec fn delivered_by(self, op: Op<T>) -> Seq<T> {
        match op {
            Op::Poll(id) => match self.poll_result(id) {
                Poll::Ready(Some(v)) => seq![v],
                _ => Seq::empty(),
            },
            _ => Seq::empty(),
        }
    }

    /// The values that the sends of `ops` put into the queue, in order.
    pub open spec fn accepted(self, ops: Seq<Op<T>>) -> Seq<T>
        decreases ops.len(),
    {
        if ops.len() == 0 {
            Seq::empty()
        } else {
            self.accepted_by(ops[0]) + self.step(ops[0]).accepted(ops.drop_first())
        }
    }

    /// The values that the polls of `ops` hand out, in order.
    pub open spec fn delivered(self, ops: Seq<Op<T>>) -> Seq<T>
        decreases ops.len(),
    {
        if ops.len() == 0 {
            Seq::empty()
        } else {
            self.delivered_by(ops[0]) + self.step(ops[0]).delivered(ops.drop_first())
        }
    }

    /// The state after sending each of `vals`, in turn.
    pub open spec fn send_all(self, vals: Seq<T>) -> Self
        decreases vals.len(),
    {
        if vals.len() == 0 {
            self
        } else {
            self.after_send(vals[0]).send_all(vals.drop_first())
        }
    }

    /// What `n` polls in a row by the receiver `id` return.
    pub open spec fn poll_results(self, id: u64, n: nat) -> Seq<Poll<T>>
        decreases n,
    {
        if n == 0 {
            Seq::empty()
        } else {
            seq![self.poll_result(id)] + self.after_poll(id).poll_results(id, (n - 1) as nat)
        }
    }
}

} // verus!

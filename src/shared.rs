//! The shared state of a channel: the bounded queue, the live counts of
//! both kinds of handle, and the wake lists of suspended receivers.
use std::collections::VecDeque;

use vstd::prelude::*;

use crate::model::{without, ChannelState};
use crate::sender::SendError;

verus! {

broadcast use vstd::seq_lib::group_seq_properties;

/// After removing the first occurrence of `x` from a list without
/// duplicates, the list holds exactly the other ids, still once each.
proof fn lemma_without(s: Seq<u64>, x: u64)
    requires
        s.no_duplicates(),
    ensures
        without(s, x).no_duplicates(),
        forall|y: u64| #[trigger] without(s, x).contains(y) <==> (s.contains(y) && y != x),
{
    s.index_of_first_ensures(x);
    match s.index_of_first(x) {
        Some(i) => {
            let r = s.remove(i);
            s.remove_ensures(i);
            assert forall|a: int, b: int| 0 <= a < r.len() && 0 <= b < r.len() && a != b implies r[a]
                != r[b] by {
                let sa = if a < i { a } else { a + 1 };
                let sb = if b < i { b } else { b + 1 };
                assert(r[a] == s[sa]);
                assert(r[b] == s[sb]);
            }
            assert forall|y: u64| #[trigger] r.contains(y) <==> (s.contains(y) && y != x) by {
                if r.contains(y) {
                    let k = choose|k: int| 0 <= k < r.len() && r[k] == y;
                    let sk = if k < i { k } else { k + 1 };
                    assert(s[sk] == y);
                    assert(sk != i);
                }
                if s.contains(y) && y != x {
                    let k = choose|k: int| 0 <= k < s.len() && s[k] == y;
                    let rk = if k < i { k } else { k - 1 };
                    assert(r[rk] == y);
                }
            }
        },
        None => {},
    }
}

/// The first position of `id` in `ids`, if any.
fn find_id(ids: &Vec<u64>, id: u64) -> (r: Option<usize>)
    ensures
        match r {
            Some(i) => i < ids@.len() && ids@[i as int] == id && forall|j: int|
                0 <= j < i ==> ids@[j] != id,
            None => !ids@.contains(id),
        },
{
    let mut i: usize = 0;
    while i < ids.len()
        invariant
            0 <= i <= ids.len(),
            forall|j: int| 0 <= j < i ==> ids@[j] != id,
        decreases ids.len() - i,
    {
        if ids[i] == id {
            return Some(i);
        }
        i += 1;
    }
    None
}

/// Whether `id` is in `ids`.
fn contains_id(ids: &Vec<u64>, id: u64) -> (r: bool)
    ensures
        r == ids@.contains(id),
{
    find_id(ids, id).is_some()
}

/// Removes the first occurrence of `id` from `ids`, if any.
fn remove_id(ids: &mut Vec<u64>, id: u64)
    ensures
        final(ids)@ == without(old(ids)@, id),
{
    proof {
        ids@.index_of_first_ensures(id);
    }
    match find_id(ids, id) {
        Some(i) => {
            proof {
                let k = ids@.index_of_first(id)->Some_0;
                assert(k == i);
            }
            ids.remove(i);
        },
        None => {},
    }
}

/// The state that all handles of one channel share.
pub struct SharedState<T> {
    capacity: usize,
    queue: VecDeque<T>,
    senders: usize,
    receivers: usize,
    pending: Vec<u64>,
    notified: Vec<u64>,
    next_id: u64,
}

impl<T> View for SharedState<T> {
    type V = ChannelState<T>;

    closed spec fn view(&self) -> ChannelState<T> {
        ChannelState {
            capacity: self.capacity as nat,
            queue: self.queue@,
            senders: self.senders as nat,
            receivers: self.receivers as nat,
            pending: self.pending@,
            notified: self.notified@,
            next_id: self.next_id as nat,
        }
    }
}

impl<T> SharedState<T> {
    /// The state is well formed.
    pub open spec fn wf(&self) -> bool {
        self@.wf()
    }

    /// A fresh state: empty, with one sender and one receiver (id 0) counted.
    pub fn new(capacity: usize) -> (r: Self)
        ensures
            r.wf(),
            r@ == ChannelState::<T>::initial(capacity as nat),
    {
        SharedState {
            capacity,
            queue: VecDeque::new(),
            senders: 1,
            receivers: 1,
            pending: Vec::new(),
            notified: Vec::new(),
            next_id: 1,
        }
    }

    /// The fixed bound on buffered values.
    pub fn capacity(&self) -> (r: usize)
        ensures
            r == self@.capacity,
    {
        self.capacity
    }

    /// The number of buffered values.
    pub fn len(&self) -> (r: usize)
        ensures
            r == self@.queue.len(),
    {
        self.queue.len()
    }

    /// The number of live senders.
    pub fn sender_count(&self) -> (r: usize)
        ensures
            r == self@.senders,
    {
        self.senders
    }

    /// The number of live receivers.
    pub fn receiver_count(&self) -> (r: usize)
        ensures
            r == self@.receivers,
    {
        self.receivers
    }

    /// The id that the next cloned receiver gets.
    pub fn next_receiver_id(&self) -> (r: u64)
        ensures
            r == self@.next_id,
    {
        self.next_id
    }

    /// The suspended receivers, oldest first.
    pub fn pending_receivers(&self) -> (r: &Vec<u64>)
        ensures
            r@ == self@.pending,
    {
        &self.pending
    }

    /// The receivers woken and not yet polled since, in wake order: the
    /// scheduler retries these.
    pub fn notified_receivers(&self) -> (r: &Vec<u64>)
        ensures
            r@ == self@.notified,
    {
        &self.notified
    }

    /// Whether the stream has ended: no sender is left and nothing is buffered.
    pub fn is_closed_for_receivers(&self) -> (r: bool)
        ensures
            r == self@.is_closed_for_receivers(),
    {
        self.queue.len() == 0 && self.senders == 0
    }

    /// Appends `value` to the queue if a receiver is live and there is room.
    pub fn try_enqueue(&mut self, value: T) -> (r: Result<(), SendError>)
        requires
            old(self).wf(),
        ensures
            final(self).wf(),
            match old(self)@.send_error() {
                Some(e) => r == Err::<(), SendError>(e) && final(self)@ == old(self)@,
                None => r == Ok::<(), SendError>(()) && final(self)@ == (ChannelState {
                    queue: old(self)@.queue.push(value),
                    ..old(self)@
                }),
            },
    {
        if self.receivers == 0 {
            Err(SendError::Closed)
        } else if self.queue.len() >= self.capacity {
            Err(SendError::Full)
        } else {
            self.queue.push_back(value);
            Ok(())
        }
    }

    /// Removes and returns the front of the queue, if any.
    pub fn try_dequeue(&mut self) -> (r: Option<T>)
        requires
            old(self).wf(),
        ensures
            final(self).wf(),
            old(self)@.queue.len() == 0 ==> r is None && final(self)@ == old(self)@,
            old(self)@.queue.len() > 0 ==> r == Some(old(self)@.queue[0]) && final(self)@ == (
            ChannelState { queue: old(self)@.queue.drop_first(), ..old(self)@ }),
    {
        let r = self.queue.pop_front();
        proof {
            assert(old(self)@.queue.drop_first() =~= old(self)@.queue.subrange(
                1,
                old(self)@.queue.len() as int,
            ));
        }
        r
    }

    /// Records that the receiver `id` waits for a value; one already
    /// suspended keeps its place.
    pub fn register_receiver_wake(&mut self, id: u64)
        requires
            old(self).wf(),
        ensures
            final(self).wf(),
            final(self)@ == old(self)@.register(id),
    {
        proof {
            lemma_without(self.notified@, id);
        }
        if !contains_id(&self.pending, id) {
            self.pending.push(id);
        }
        remove_id(&mut self.notified, id);
        proof {
            assert(self@ == old(self)@.register(id));
        }
    }

    /// Forgets every registration of the receiver `id`.
    pub fn unregister_receiver(&mut self, id: u64)
        requires
            old(self).wf(),
        ensures
            final(self).wf(),
            final(self)@ == old(self)@.unregister(id),
    {
        proof {
            lemma_without(self.notified@, id);
            lemma_without(self.pending@, id);
        }
        remove_id(&mut self.pending, id);
        remove_id(&mut self.notified, id);
        proof {
            assert(self@ == old(self)@.unregister(id));
        }
    }

    /// Wakes the longest-suspended receiver, if any.
    pub fn wake_one_receiver(&mut self)
        requires
            old(self).wf(),
        ensures
            final(self).wf(),
            final(self)@ == old(self)@.wake_one(),
    {
        if self.pending.len() > 0 {
            let id = self.pending.remove(0);
            self.notified.push(id);
            proof {
                let p = old(self)@.pending;
                let n = old(self)@.notified;
                assert(self.pending@ =~= p.drop_first());
                assert(p.contains(p[0]));
                assert forall|x: u64| #[trigger] self.pending@.contains(x) implies !self.notified@.contains(x) by {
                    let k = choose|k: int| 0 <= k < self.pending@.len() && self.pending@[k] == x;
                    assert(p[k + 1] == x);
                    assert(p.contains(x));
                }
                assert(self@ == old(self)@.wake_one());
            }
        }
    }

    /// Wakes every suspended receiver, oldest first.
    pub fn wake_all_receivers(&mut self)
        requires
            old(self).wf(),
        ensures
            final(self).wf(),
            final(self)@ == old(self)@.wake_all(),
    {
        self.notified.append(&mut self.pending);
        proof {
            let p = old(self)@.pending;
            let n = old(self)@.notified;
            let m = self.notified@;
            assert(self.pending@ =~= Seq::<u64>::empty());
            assert forall|i: int, j: int| 0 <= i < m.len() && 0 <= j < m.len() && i != j implies m[i]
                != m[j] by {
                if i < n.len() && j >= n.len() {
                    assert(n.contains(m[i]));
                    assert(p.contains(m[j]));
                } else if j < n.len() && i >= n.len() {
                    assert(n.contains(m[j]));
                    assert(p.contains(m[i]));
                }
            }
            assert(self@ == old(self)@.wake_all());
        }
    }
    /// Counts one more live sender.
    pub(crate) fn add_sender(&mut self)
        requires
            old(self).wf(),
            old(self)@.senders < usize::MAX,
        ensures
            final(self).wf(),
            final(self)@ == old(self)@.after_clone_sender(),
    {
        self.senders = self.senders + 1;
    }

    /// Counts one live sender less; the last one wakes every suspended receiver.
    pub(crate) fn remove_sender(&mut self)
        requires
            old(self).wf(),
            old(self)@.senders > 0,
        ensures
            final(self).wf(),
            final(self)@ == old(self)@.after_drop_sender(),
    {
        self.senders = self.senders - 1;
        if self.senders == 0 {
            self.wake_all_receivers();
        }
    }

    /// Counts one more live receiver and hands out its id.
    pub(crate) fn add_receiver(&mut self) -> (r: u64)
        requires
            old(self).wf(),
            old(self)@.receivers < usize::MAX,
            old(self)@.next_id < u64::MAX,
        ensures
            final(self).wf(),
            final(self)@ == old(self)@.after_clone_receiver(),
            r == old(self)@.next_id,
    {
        let id = self.next_id;
        self.receivers = self.receivers + 1;
        self.next_id = self.next_id + 1;
        id
    }

    /// Counts one live receiver less and forgets its registrations; when it
    /// had been woken for a value that is still buffered, the next suspended
    /// receiver is woken in its place.
    pub(crate) fn remove_receiver(&mut self, id: u64)
        requires
            old(self).wf(),
            old(self)@.receivers > 0,
        ensures
            final(self).wf(),
            final(self)@ == old(self)@.after_drop_receiver(id),
    {
        let was_woken = contains_id(&self.notified, id);
        self.receivers = self.receivers - 1;
        self.unregister_receiver(id);
        if was_woken && self.queue.len() > 0 {
            self.wake_one_receiver();
        }
    }
}

} // verus!

//! The consumer handle and its polling protocol.
use vstd::prelude::*;

use crate::shared::SharedState;
use crate::SenderLost;

verus! {

/// What a poll returns.
#[derive(Debug, PartialEq, Eq)]
pub enum Poll<T> {
    /// Nothing to take yet; the receiver is registered to be woken.
    Pending,
    /// A value, or `None` once the stream has ended.
    Ready(Option<T>),
}

/// A consumer handle of a channel, known to the channel by its id.
#[derive(Debug)]
pub struct Receiver {
    id: u64,
}

impl Receiver {
    pub(crate) fn new(id: u64) -> (r: Receiver)
        ensures
            r.id() == id,
    {
        Receiver { id }
    }

    pub closed spec fn spec_id(&self) -> u64 {
        self.id
    }

    /// The id under which the channel's wake lists hold this receiver.
    #[verifier::when_used_as_spec(spec_id)]
    pub fn id(&self) -> (r: u64)
        ensures
            r == self.id(),
    {
        self.id
    }

    /// Polls for the next value: the front of the queue whenever one is
    /// buffered; else the end of the stream once no sender is left; else
    /// `Pending`, after registering to be woken.
    pub fn poll<T>(&self, state: &mut SharedState<T>) -> (r: Poll<T>)
        requires
            old(state).wf(),
        ensures
            final(state).wf(),
            r == old(state)@.poll_result(self.id()),
            final(state)@ == old(state)@.after_poll(self.id()),
    {
        if state.is_closed_for_receivers() {
            state.unregister_receiver(self.id);
            Poll::Ready(None)
        } else if state.len() > 0 {
            state.unregister_receiver(self.id);
            match state.try_dequeue() {
                Some(v) => Poll::Ready(Some(v)),
                None => {
                    proof {
                        assert(false);
                    }
                    Poll::Pending
                },
            }
        } else {
            state.register_receiver_wake(self.id);
            Poll::Pending
        }
    }

    /// Polls as `poll` does, with the end of the stream as an error:
    /// `Ok(Some(v))` for a value, `Ok(None)` for `Pending`.
    pub fn try_recv<T>(&self, state: &mut SharedState<T>) -> (r: Result<Option<T>, SenderLost>)
        requires
            old(state).wf(),
        ensures
            final(state).wf(),
            final(state)@ == old(state)@.after_poll(self.id()),
            r == match old(state)@.poll_result(self.id()) {
                Poll::Ready(Some(v)) => Ok(Some(v)),
                Poll::Ready(None) => Err(SenderLost()),
                Poll::Pending => Ok::<Option<T>, SenderLost>(None),
            },
    {
        match self.poll(state) {
            Poll::Ready(Some(v)) => Ok(Some(v)),
            Poll::Ready(None) => Err(SenderLost()),
            Poll::Pending => Ok(None),
        }
    }

    /// A new receiver of the same channel, with the next free id.
    pub fn clone_handle<T>(&self, state: &mut SharedState<T>) -> (r: Receiver)
        requires
            old(state).wf(),
            old(state)@.receivers > 0,
            old(state)@.receivers < usize::MAX,
            old(state)@.next_id < u64::MAX,
        ensures
            final(state).wf(),
            final(state)@ == old(state)@.after_clone_receiver(),
            r.id() == old(state)@.next_id,
    {
        let id = state.add_receiver();
        Receiver { id }
    }

    /// Drops this receiver: its wake registrations go, and when it had been
    /// woken for a value that is still buffered, the next suspended receiver
    /// is woken in its place.
    pub fn release<T>(self, state: &mut SharedState<T>)
        requires
            old(state).wf(),
            old(state)@.receivers > 0,
        ensures
            final(state).wf(),
            final(state)@ == old(state)@.after_drop_receiver(self.id()),
    {
        state.remove_receiver(self.id);
    }
}

} // verus!

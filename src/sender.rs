//! The producer handle.
use vstd::prelude::*;

use crate::shared::SharedState;

verus! {

/// Why a send failed.
#[derive(Debug, Clone, Copy, PartialEq, Eq, Structural)]
pub enum SendError {
    /// The queue holds `capacity` values; a later retry may succeed.
    Full,
    /// No receiver is live; no later send can be observed.
    Closed,
}

/// A producer handle of a channel. Clones compete for the same bounded slots.
#[derive(Debug)]
pub struct Sender {
    _token: (),
}

impl Sender {
    pub(crate) fn new() -> (r: Sender) {
        Sender { _token: () }
    }

    /// Sends `value` without blocking. On success the value is buffered and
    /// the longest-suspended receiver, if any, is woken.
    pub fn send<T>(&self, state: &mut SharedState<T>, value: T) -> (r: Result<(), SendError>)
        requires
            old(state).wf(),
            old(state)@.senders > 0,
        ensures
            final(state).wf(),
            final(state)@ == old(state)@.after_send(value),
            r == match old(state)@.send_error() {
                Some(e) => Err::<(), SendError>(e),
                None => Ok(()),
            },
    {
        let r = state.try_enqueue(value);
        if r.is_ok() {
            state.wake_one_receiver();
        }
        r
    }

    /// A new sender of the same channel.
    pub fn clone_handle<T>(&self, state: &mut SharedState<T>) -> (r: Sender)
        requires
            old(state).wf(),
            old(state)@.senders > 0,
            old(state)@.senders < usize::MAX,
        ensures
            final(state).wf(),
            final(state)@ == old(state)@.after_clone_sender(),
    {
        state.add_sender();
        Sender { _token: () }
    }

    /// Drops this sender. When it is the last one, every suspended receiver
    /// is woken so that it observes the end of the stream.
    pub fn release<T>(self, state: &mut SharedState<T>)
        requires
            old(state).wf(),
            old(state)@.senders > 0,
        ensures
            final(state).wf(),
            final(state)@ == old(state)@.after_drop_sender(),
    {
        state.remove_sender();
    }
}

} // verus!

//! A bounded, single-threaded, multi-producer/multi-consumer channel for
//! cooperative schedulers running on one execution context.
//!
//! All state lives in one [`SharedState`], owned by the execution context.
//! [`Sender`] and [`Receiver`] are handles into it: every operation takes the
//! handle and the state, so mutation of the state is always one well-scoped
//! call. Suspended receivers are kept in explicit wake lists that the
//! scheduler reads.
use vstd::prelude::*;

pub mod laws;
pub mod model;
pub mod receiver;
pub mod sender;
pub mod shared;

pub use crate::model::{ChannelState, Op};
pub use crate::receiver::{Poll, Receiver};
pub use crate::sender::{SendError, Sender};
pub use crate::shared::SharedState;

verus! {

/// Creates a bounded channel: its shared state, with one live `Sender` and
/// one live `Receiver` bound to it.
///
/// Each item sent into the channel is read by only one receiver, and
/// receivers are given values in the order they requested them.
/// A capacity of zero makes every send fail with `Full`.
pub fn channel<T>(capacity: usize) -> (r: (SharedState<T>, Sender, Receiver))
    ensures
        r.0.wf(),
        r.0@ == ChannelState::<T>::initial(capacity as nat),
        r.2.id() == 0,
{
    let state = SharedState::new(capacity);
    (state, Sender::new(), Receiver::new(0))
}

/// The error of a receive that found no live sender and no buffered value.
#[derive(Debug, Clone, Copy, PartialEq, Eq, Structural)]
pub struct SenderLost();

impl SenderLost {
    /// The fixed message of this error.
    pub fn description(&self) -> (r: &'static str)
        ensures
            r@ == "recv failed because sender is gone"@,
    {
        "recv failed because sender is gone"
    }
}

} // verus!

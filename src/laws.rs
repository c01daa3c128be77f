//! Laws of the channel model, over the operations that the handles perform.
use vstd::prelude::*;

use crate::model::{ChannelState, Op};
use crate::receiver::Poll;
use crate::sender::SendError;

verus! {

broadcast use vstd::seq_lib::group_seq_properties;

proof fn lemma_send_all_appends<T>(s: ChannelState<T>, vals: Seq<T>)
    requires
        s.pending.len() == 0,
        s.receivers > 0,
        s.queue.len() + vals.len() <= s.capacity,
    ensures
        s.send_all(vals) == (ChannelState { queue: s.queue + vals, ..s }),
    decreases vals.len(),
{
    if vals.len() > 0 {
        let t = s.after_send(vals[0]);
        assert(t == ChannelState { queue: s.queue.push(vals[0]), ..s });
        lemma_send_all_appends(t, vals.drop_first());
        assert(s.queue.push(vals[0]) + vals.drop_first() =~= s.queue + vals);
    } else {
        assert(s.queue + vals =~= s.queue);
    }
}

proof fn lemma_polls_drain<T>(s: ChannelState<T>, id: u64)
    requires
        s.pending.len() == 0,
        s.notified.len() == 0,
    ensures
        s.poll_results(id, s.queue.len()) == s.queue.map_values(|v: T| Poll::Ready(Some(v))),
    decreases s.queue.len(),
{
    if s.queue.len() > 0 {
        let t = s.after_poll(id);
        assert(t == ChannelState { queue: s.queue.drop_first(), ..s });
        lemma_polls_drain(t, id);
        assert(s.queue.map_values(|v: T| Poll::Ready(Some(v))) =~= seq![Poll::Ready(Some(s.queue[0]))]
            + t.queue.map_values(|v: T| Poll::Ready(Some(v))));
    } else {
        assert(s.queue.map_values(|v: T| Poll::Ready(Some(v))) =~= Seq::<Poll<T>>::empty());
    }
}

/// Values sent into an empty channel that no receiver has polled yet, no
/// more of them than its capacity, are all buffered, and a receiver then
/// polling as many times gets them back in the order they were sent.
pub proof fn lemma_fifo_delivery<T>(s: ChannelState<T>, vals: Seq<T>, id: u64)
    requires
        s.queue.len() == 0,
        s.pending.len() == 0,
        s.notified.len() == 0,
        s.receivers > 0,
        vals.len() <= s.capacity,
    ensures
        s.send_all(vals).queue == vals,
        s.send_all(vals).poll_results(id, vals.len()) == vals.map_values(
            |v: T| Poll::Ready(Some(v)),
        ),
{
    lemma_send_all_appends(s, vals);
    assert(s.queue + vals =~= vals);
    lemma_polls_drain(s.send_all(vals), id);
}

/// A value leaves the queue only as the result of one poll: a poll that
/// returns a value returns the front of the queue and removes exactly it; a
/// send only appends its value, and only when it succeeds; every other
/// operation leaves the queue as it is.
pub proof fn lemma_each_value_delivered_once<T>(s: ChannelState<T>, op: Op<T>)
    ensures
        match op {
            Op::Send(v) => s.step(op).queue == if s.send_error() is None {
                s.queue.push(v)
            } else {
                s.queue
            },
            Op::Poll(id) => match s.poll_result(id) {
                Poll::Ready(Some(v)) => s.queue.len() > 0 && v == s.queue[0] && s.step(op).queue
                    == s.queue.drop_first(),
                _ => s.step(op).queue == s.queue,
            },
            _ => s.step(op).queue == s.queue,
        },
{
}

/// A send into a full channel never succeeds: it reports `Full` while a
/// receiver is live (`Closed` otherwise) and changes nothing.
pub proof fn lemma_full_rejects_send<T>(s: ChannelState<T>, v: T)
    requires
        s.queue.len() == s.capacity,
    ensures
        s.send_error() == if s.receivers > 0 {
            Some(SendError::Full)
        } else {
            Some(SendError::Closed)
        },
        s.after_send(v) == s,
{
}

proof fn lemma_closed_step<T>(s: ChannelState<T>, op: Op<T>)
    requires
        s.is_closed_for_receivers(),
        s.allows(op),
    ensures
        s.step(op).is_closed_for_receivers(),
{
}

/// Once no sender is left and the queue is empty, the channel stays so
/// under every sequence of operations, and every poll, by any receiver,
/// returns the end of the stream.
pub proof fn lemma_closed_forever<T>(s: ChannelState<T>, ops: Seq<Op<T>>, id: u64)
    requires
        s.is_closed_for_receivers(),
        s.allows_all(ops),
    ensures
        s.run(ops).is_closed_for_receivers(),
        s.run(ops).poll_result(id) == Poll::<T>::Ready(None),
    decreases ops.len(),
{
    if ops.len() > 0 {
        lemma_closed_step(s, ops[0]);
        lemma_closed_forever(s.step(ops[0]), ops.drop_first(), id);
    }
}

/// When receiver `a` suspended before receiver `b` and one value arrives,
/// the send wakes `a` alone: `b` stays suspended, and `a`'s next poll, if no
/// other poll comes first, receives the value.
pub proof fn lemma_fair_wake<T>(s: ChannelState<T>, v: T, a: u64, b: u64)
    requires
        s.wf(),
        s.queue.len() == 0,
        s.notified.len() == 0,
        s.receivers > 0,
        s.capacity > 0,
        s.pending.len() > 0,
        s.pending[0] == a,
        s.pending.contains(b),
        a != b,
    ensures
        s.after_send(v).notified == seq![a],
        s.after_send(v).pending.contains(b),
        !s.after_send(v).pending.contains(a),
        s.after_send(v).poll_result(a) == Poll::Ready(Some(v)),
{
    let t = s.after_send(v);
    assert(t.notified =~= seq![a]);
    assert(t.pending == s.pending.drop_first());
    let k = choose|k: int| 0 <= k < s.pending.len() && s.pending[k] == b;
    assert(k != 0);
    assert(t.pending[k - 1] == b);
    if t.pending.contains(a) {
        let j = choose|j: int| 0 <= j < t.pending.len() && t.pending[j] == a;
        assert(s.pending[j + 1] == s.pending[0]);
    }
}

proof fn lemma_step_conserves<T>(s: ChannelState<T>, op: Op<T>)
    ensures
        s.queue + s.accepted_by(op) == s.delivered_by(op) + s.step(op).queue,
{
    lemma_each_value_delivered_once(s, op);
    match op {
        Op::Send(v) => {
            assert(s.queue + s.accepted_by(op) =~= s.delivered_by(op) + s.step(op).queue);
        },
        Op::Poll(id) => {
            assert(s.queue + s.accepted_by(op) =~= s.delivered_by(op) + s.step(op).queue);
        },
        _ => {
            assert(s.queue + s.accepted_by(op) =~= s.delivered_by(op) + s.step(op).queue);
        },
    }
}

/// Over any sequence of operations, the values buffered at the start
/// followed by those accepted by sends are exactly the values handed out by
/// polls followed by those still buffered at the end: no value is lost,
/// duplicated or reordered, and each is handed to one poll only.
pub proof fn lemma_values_conserved<T>(s: ChannelState<T>, ops: Seq<Op<T>>)
    ensures
        s.queue + s.accepted(ops) == s.delivered(ops) + s.run(ops).queue,
    decreases ops.len(),
{
    if ops.len() == 0 {
        assert(s.queue + s.accepted(ops) =~= s.delivered(ops) + s.run(ops).queue);
    } else {
        let t = s.step(ops[0]);
        let rest = ops.drop_first();
        lemma_step_conserves(s, ops[0]);
        lemma_values_conserved(t, rest);
        assert(s.queue + s.accepted(ops) =~= (s.queue + s.accepted_by(ops[0])) + t.accepted(rest));
        assert(s.delivered(ops) + s.run(ops).queue =~= s.delivered_by(ops[0]) + (t.delivered(rest)
            + t.run(rest).queue));
        assert((s.delivered_by(ops[0]) + t.queue) + t.accepted(rest) =~= s.delivered_by(ops[0]) + (
        t.queue + t.accepted(rest)));
    }
}

} // verus!

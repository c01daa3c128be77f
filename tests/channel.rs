use mpmc::{channel, Poll, SendError, SharedState};

#[test]
fn send_full_poll_then_close() {
    let (mut st, tx, rx) = channel::<i32>(1);
    assert_eq!(tx.send(&mut st, 1), Ok(()));
    assert_eq!(tx.send(&mut st, 2), Err(SendError::Full));
    assert_eq!(rx.poll(&mut st), Poll::Ready(Some(1)));
    assert_eq!(tx.send(&mut st, 2), Ok(()));
    assert_eq!(rx.poll(&mut st), Poll::Ready(Some(2)));
    tx.release(&mut st);
    assert_eq!(rx.poll(&mut st), Poll::Ready(None));
}

#[test]
fn send_after_receivers_dropped_is_closed() {
    let (mut st, tx, rx) = channel::<i32>(2);
    rx.release(&mut st);
    assert_eq!(tx.send(&mut st, 1), Err(SendError::Closed));
    assert_eq!(st.len(), 0);
}

#[test]
fn closed_wins_over_full() {
    let (mut st, tx, rx) = channel::<i32>(1);
    assert_eq!(tx.send(&mut st, 1), Ok(()));
    rx.release(&mut st);
    assert_eq!(tx.send(&mut st, 2), Err(SendError::Closed));
}

#[test]
fn zero_capacity_is_always_full() {
    let (mut st, tx, rx) = channel::<i32>(0);
    assert_eq!(rx.poll(&mut st), Poll::Pending);
    assert_eq!(tx.send(&mut st, 1), Err(SendError::Full));
    assert_eq!(st.capacity(), 0);
}

#[test]
fn values_come_back_in_send_order() {
    let (mut st, tx, rx) = channel::<u32>(4);
    for v in [10, 20, 30, 40] {
        assert_eq!(tx.send(&mut st, v), Ok(()));
    }
    assert_eq!(tx.send(&mut st, 50), Err(SendError::Full));
    for v in [10, 20, 30, 40] {
        assert_eq!(rx.poll(&mut st), Poll::Ready(Some(v)));
    }
    assert_eq!(rx.poll(&mut st), Poll::Pending);
}

#[test]
fn each_value_reaches_one_receiver() {
    let (mut st, tx, rx_a) = channel::<u32>(2);
    let rx_b = rx_a.clone_handle(&mut st);
    assert_eq!(st.receiver_count(), 2);
    assert_eq!(tx.send(&mut st, 7), Ok(()));
    assert_eq!(tx.send(&mut st, 8), Ok(()));
    assert_eq!(rx_b.poll(&mut st), Poll::Ready(Some(7)));
    assert_eq!(rx_a.poll(&mut st), Poll::Ready(Some(8)));
    assert_eq!(rx_a.poll(&mut st), Poll::Pending);
    assert_eq!(rx_b.poll(&mut st), Poll::Pending);
}

#[test]
fn first_suspended_receiver_gets_the_value() {
    let (mut st, tx, rx_a) = channel::<u32>(1);
    let rx_b = rx_a.clone_handle(&mut st);
    assert_eq!(rx_a.poll(&mut st), Poll::Pending);
    assert_eq!(rx_b.poll(&mut st), Poll::Pending);
    assert_eq!(st.pending_receivers().clone(), vec![rx_a.id(), rx_b.id()]);
    assert_eq!(tx.send(&mut st, 5), Ok(()));
    assert_eq!(st.notified_receivers().clone(), vec![rx_a.id()]);
    assert_eq!(st.pending_receivers().clone(), vec![rx_b.id()]);
    assert_eq!(rx_a.poll(&mut st), Poll::Ready(Some(5)));
    assert!(st.notified_receivers().is_empty());
    assert_eq!(st.pending_receivers().clone(), vec![rx_b.id()]);
}

#[test]
fn whichever_receiver_polls_next_takes_the_value() {
    let (mut st, tx, rx_a) = channel::<u32>(1);
    let rx_b = rx_a.clone_handle(&mut st);
    assert_eq!(rx_a.poll(&mut st), Poll::Pending);
    assert_eq!(tx.send(&mut st, 5), Ok(()));
    assert_eq!(st.notified_receivers().clone(), vec![rx_a.id()]);
    assert_eq!(rx_b.poll(&mut st), Poll::Ready(Some(5)));
    assert_eq!(st.len(), 0);
    assert_eq!(rx_a.poll(&mut st), Poll::Pending);
    assert_eq!(st.pending_receivers().clone(), vec![rx_a.id()]);
}

#[test]
fn draining_channel_never_leaves_a_receiver_waiting() {
    let (mut st, tx, rx_a) = channel::<u32>(2);
    let rx_b = rx_a.clone_handle(&mut st);
    assert_eq!(rx_a.poll(&mut st), Poll::Pending);
    assert_eq!(tx.send(&mut st, 1), Ok(()));
    tx.release(&mut st);
    assert_eq!(rx_b.poll(&mut st), Poll::Ready(Some(1)));
    assert!(st.pending_receivers().is_empty());
    assert_eq!(rx_a.poll(&mut st), Poll::Ready(None));
    assert_eq!(rx_b.poll(&mut st), Poll::Ready(None));
}

#[test]
fn dropped_woken_receiver_passes_its_value_on() {
    let (mut st, tx, rx_a) = channel::<u32>(1);
    let rx_b = rx_a.clone_handle(&mut st);
    assert_eq!(rx_a.poll(&mut st), Poll::Pending);
    assert_eq!(rx_b.poll(&mut st), Poll::Pending);
    assert_eq!(tx.send(&mut st, 9), Ok(()));
    let id_b = rx_b.id();
    rx_a.release(&mut st);
    assert_eq!(st.notified_receivers().clone(), vec![id_b]);
    assert!(st.pending_receivers().is_empty());
    assert_eq!(rx_b.poll(&mut st), Poll::Ready(Some(9)));
}

#[test]
fn last_sender_drop_wakes_every_receiver() {
    let (mut st, tx, rx_a) = channel::<u32>(3);
    let tx2 = tx.clone_handle(&mut st);
    let rx_b = rx_a.clone_handle(&mut st);
    assert_eq!(rx_a.poll(&mut st), Poll::Pending);
    assert_eq!(rx_b.poll(&mut st), Poll::Pending);
    tx.release(&mut st);
    assert_eq!(st.sender_count(), 1);
    assert!(st.notified_receivers().is_empty());
    tx2.release(&mut st);
    assert_eq!(st.notified_receivers().clone(), vec![rx_a.id(), rx_b.id()]);
    assert!(st.is_closed_for_receivers());
    assert_eq!(rx_b.poll(&mut st), Poll::Ready(None));
    assert_eq!(rx_a.poll(&mut st), Poll::Ready(None));
    assert_eq!(rx_a.poll(&mut st), Poll::Ready(None));
}

#[test]
fn buffered_values_drain_after_senders_go() {
    let (mut st, tx, rx) = channel::<u32>(2);
    assert_eq!(tx.send(&mut st, 1), Ok(()));
    assert_eq!(tx.send(&mut st, 2), Ok(()));
    tx.release(&mut st);
    assert!(!st.is_closed_for_receivers());
    assert_eq!(rx.try_recv(&mut st), Ok(Some(1)));
    assert_eq!(rx.poll(&mut st), Poll::Ready(Some(2)));
    let err = rx.try_recv(&mut st).unwrap_err();
    assert_eq!(err.description(), "recv failed because sender is gone");
    let rx2 = rx.clone_handle(&mut st);
    assert_eq!(rx2.poll(&mut st), Poll::Ready(None));
}

#[test]
fn try_recv_reports_pending_as_none() {
    let (mut st, tx, rx) = channel::<u32>(2);
    assert_eq!(rx.try_recv(&mut st), Ok(None));
    assert_eq!(st.pending_receivers().clone(), vec![rx.id()]);
    assert_eq!(tx.send(&mut st, 3), Ok(()));
    assert_eq!(rx.try_recv(&mut st), Ok(Some(3)));
}

#[test]
fn shared_state_queue_operations() {
    let mut st: SharedState<u8> = SharedState::new(2);
    assert_eq!(st.try_dequeue(), None);
    assert_eq!(st.try_enqueue(4), Ok(()));
    assert_eq!(st.try_enqueue(5), Ok(()));
    assert_eq!(st.try_enqueue(6), Err(SendError::Full));
    assert_eq!(st.len(), 2);
    assert_eq!(st.try_dequeue(), Some(4));
    assert_eq!(st.try_dequeue(), Some(5));
    st.register_receiver_wake(0);
    st.register_receiver_wake(0);
    assert_eq!(st.pending_receivers().clone(), vec![0]);
    st.wake_one_receiver();
    assert_eq!(st.notified_receivers().clone(), vec![0]);
    st.unregister_receiver(0);
    assert!(st.notified_receivers().is_empty());
    assert_eq!(st.next_receiver_id(), 1);
}

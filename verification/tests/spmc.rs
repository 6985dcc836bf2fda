use thread_pool::spmc::{channel, settle, ChannelState, RecvError, TryRecvError};

#[test]
fn simple_channel() {
    let (tx, rx) = channel();

    tx.send(1);

    assert_eq!(rx.recv().unwrap(), 1);
}

#[test]
fn dual_channel() {
    let (tx, rx1) = channel();

    let rx2 = rx1.clone();

    tx.send(1);
    tx.send(2);

    assert_eq!(rx1.recv().unwrap(), 1);
    assert_eq!(rx2.recv().unwrap(), 2);
}

#[test]
fn dual_channel_one_receives() {
    let (tx, rx1) = channel();

    let rx2 = rx1.clone();

    tx.send(1);
    tx.send(2);

    assert_eq!(rx1.try_recv().unwrap(), 1);
    assert_eq!(rx1.try_recv().unwrap(), 2);

    assert_eq!(rx2.try_recv().unwrap_err(), TryRecvError::NoValue);
    assert_eq!(rx1.try_recv().unwrap_err(), TryRecvError::NoValue);
}

#[test]
fn receiver_iter() {
    let (tx, rx) = channel();

    tx.send(1);

    drop(tx);
    for i in rx {
        assert_eq!(i, 1);
    }
}

#[test]
fn queue_depth() {
    let (tx, rx1) = channel();

    let rx2 = rx1.clone();

    tx.send(1);
    tx.send(2);

    assert_eq!(tx.queued(), 2);
    assert_eq!(rx1.queued(), 2);
    assert_eq!(rx2.queued(), 2);
}

#[test]
fn items_are_received_in_sending_order() {
    let (tx, rx) = channel();
    for i in 0..100u32 {
        tx.send(i);
    }
    for i in 0..100u32 {
        assert_eq!(rx.recv(), Ok(i));
    }
    assert_eq!(rx.queued(), 0);
    assert_eq!(rx.try_recv(), Err(TryRecvError::NoValue));
}

#[test]
fn closed_channel_is_drained_before_closure_is_reported() {
    let (tx, rx) = channel();
    tx.send('a');
    tx.send('b');
    drop(tx);

    assert_eq!(rx.queued(), 2);
    assert_eq!(rx.recv(), Ok('a'));
    assert_eq!(rx.recv(), Ok('b'));
    assert_eq!(rx.recv(), Err(RecvError::ChannelClosed));
    assert_eq!(rx.recv(), Err(RecvError::ChannelClosed));
}

#[test]
fn try_recv_tells_closed_from_empty() {
    let (tx, rx) = channel::<u8>();
    assert_eq!(rx.try_recv(), Err(TryRecvError::NoValue));

    tx.send(9);
    drop(tx);
    assert_eq!(rx.try_recv(), Ok(9));
    assert_eq!(rx.try_recv(), Err(TryRecvError::ChannelClosed));
    assert_eq!(rx.try_recv(), Err(TryRecvError::ChannelClosed));
}

#[test]
fn closure_reaches_every_clone() {
    let (tx, rx1) = channel::<u8>();
    let rx2 = rx1.clone();
    let rx3 = rx2.clone();
    tx.send(1);
    drop(tx);

    assert_eq!(rx3.recv(), Ok(1));
    assert_eq!(rx1.recv(), Err(RecvError::ChannelClosed));
    assert_eq!(rx2.recv(), Err(RecvError::ChannelClosed));
    assert_eq!(rx3.try_recv(), Err(TryRecvError::ChannelClosed));
}

#[test]
fn each_item_goes_to_one_receiver() {
    let (tx, rx1) = channel();
    let rx2 = rx1.clone();
    tx.send("only");

    assert_eq!(rx2.queued(), 1);
    assert_eq!(rx2.try_recv(), Ok("only"));
    assert_eq!(rx1.queued(), 0);
    assert_eq!(rx1.try_recv(), Err(TryRecvError::NoValue));
}

#[test]
fn queued_follows_sends_and_receives() {
    let (tx, rx) = channel();
    assert_eq!(tx.queued(), 0);
    tx.send(1);
    tx.send(2);
    tx.send(3);
    assert_eq!(tx.queued(), 3);
    assert_eq!(rx.recv(), Ok(1));
    assert_eq!(tx.queued(), 2);
    assert_eq!(rx.try_recv(), Ok(2));
    assert_eq!(rx.queued(), 1);
}

#[test]
fn iterator_yields_everything_sent_then_ends() {
    let (tx, rx) = channel();
    for i in 0..10 {
        tx.send(i);
    }
    drop(tx);

    let mut iter = rx.into_iter();
    for i in 0..10 {
        assert_eq!(iter.next(), Some(i));
    }
    assert_eq!(iter.next(), None);
    assert_eq!(iter.next(), None);
}

#[test]
fn iterator_collects_in_order() {
    let (tx, rx) = channel();
    tx.send(3);
    tx.send(1);
    tx.send(2);
    drop(tx);

    let all: Vec<i32> = rx.into_iter().collect();
    assert_eq!(all, vec![3, 1, 2]);
}

#[test]
fn items_outlive_their_sender() {
    let (tx, rx) = channel();
    tx.send(String::from("kept"));
    drop(tx);
    assert_eq!(rx.recv().unwrap(), "kept");
}

#[test]
fn state_starts_open_and_empty() {
    let mut state = ChannelState::<u8>::new();
    assert_eq!(state.len(), 0);
    assert!(!state.is_closed());
    assert_eq!(state.try_pop(), Err(TryRecvError::NoValue));
}

#[test]
fn state_pops_oldest_first() {
    let mut state = ChannelState::new();
    state.push(1);
    state.push(2);
    state.push(3);
    assert_eq!(state.len(), 3);
    assert_eq!(state.try_pop(), Ok(1));
    assert_eq!(state.len(), 2);
    assert_eq!(state.try_pop(), Ok(2));
    assert_eq!(state.try_pop(), Ok(3));
    assert_eq!(state.len(), 0);
    assert_eq!(state.try_pop(), Err(TryRecvError::NoValue));
    assert_eq!(state.len(), 0);
}

#[test]
fn state_close_keeps_pending_items() {
    let mut state = ChannelState::new();
    state.push(5);
    state.close();
    assert!(state.is_closed());
    assert_eq!(state.len(), 1);
    assert_eq!(state.try_pop(), Ok(5));
    assert_eq!(state.try_pop(), Err(TryRecvError::ChannelClosed));
    assert!(state.is_closed());
}

#[test]
fn state_close_is_never_taken_back() {
    let mut state = ChannelState::new();
    state.close();
    state.close();
    assert!(state.is_closed());
    state.push(1);
    assert!(state.is_closed());
    assert_eq!(state.try_pop(), Ok(1));
    assert!(state.is_closed());
}

#[test]
fn poll_waits_only_on_open_and_empty() {
    let mut state = ChannelState::new();
    let mut slot = Err(TryRecvError::ChannelClosed);

    assert!(state.poll(&mut slot));
    assert_eq!(slot, Err(TryRecvError::NoValue));

    state.push(4);
    assert!(!state.poll(&mut slot));
    assert_eq!(slot, Ok(4));
    assert_eq!(state.len(), 0);

    state.close();
    assert!(!state.poll(&mut slot));
    assert_eq!(slot, Err(TryRecvError::ChannelClosed));
}

#[test]
fn settle_maps_the_end_of_a_wait() {
    assert_eq!(settle(Ok(3)), Ok(3));
    assert_eq!(settle::<i32>(Err(TryRecvError::ChannelClosed)), Err(RecvError::ChannelClosed));
}

//! Single-threaded behavior of the three channel flavors: construction,
//! disconnection, backpressure, timeouts, iteration, and the classification
//! helpers.
use alt_mpsc::channel;
use alt_mpsc::classify_push;
use alt_mpsc::classify_recv;
use alt_mpsc::classify_recv_failure;
use alt_mpsc::classify_send_failure;
use alt_mpsc::queue::Queue;
use alt_mpsc::sync_channel;
use alt_mpsc::token::tokens;
use alt_mpsc::Receiver;
use alt_mpsc::RecvError;
use alt_mpsc::RecvTimeoutError;
use alt_mpsc::SendError;
use alt_mpsc::TryRecvError;
use alt_mpsc::TrySendError;

use std::time::Duration;
use std::time::Instant;

#[test]
fn send_fails_if_no_receiver() {
    let (tx, _) = channel();

    assert!(tx.send(10).is_err());
}

#[test]
fn send_fails_if_no_receiver_bounded() {
    for i in 0..10 {
        let (tx, _) = sync_channel(i);

        assert!(tx.send(10).is_err());
    }
}

#[test]
fn send_drop_cannot_recv() {
    let (_, receiver): (_, Receiver<i32>) = channel();

    assert!(receiver.recv().is_err());
}

#[test]
fn send_drop_cannot_try_recv() {
    let (_, receiver): (_, Receiver<i32>) = channel();

    assert_eq!(receiver.try_recv(), Err(TryRecvError::Disconnected));
}

#[test]
fn buffer_then_drop() {
    let (tx, rx) = channel();
    tx.send(1).unwrap();
    tx.send(2).unwrap();
    tx.send(3).unwrap();
    drop(tx);

    assert_eq!(rx.recv(), Ok(1));
    assert_eq!(rx.recv(), Ok(2));
    assert_eq!(rx.recv(), Ok(3));
    assert!(rx.recv().is_err());
}

#[test]
fn try_recv_sees_buffered_then_empty() {
    let (tx, rx) = channel();
    tx.send(5).unwrap();
    assert_eq!(rx.try_recv(), Ok(5));
    assert_eq!(rx.try_recv(), Err(TryRecvError::Empty));
}

#[test]
fn bounded_backpressure() {
    let (tx, rx) = sync_channel(2);
    tx.send(1).unwrap();
    tx.send(2).unwrap();
    assert_eq!(tx.try_send(3), Err(TrySendError::Full(3)));
    assert_eq!(rx.recv(), Ok(1));
    assert_eq!(tx.try_send(3), Ok(()));
    assert_eq!(rx.recv(), Ok(2));
    assert_eq!(rx.recv(), Ok(3));
}

#[test]
fn bounded_try_send_disconnected() {
    let (tx, rx) = sync_channel(1);
    drop(rx);
    assert_eq!(tx.try_send(4), Err(TrySendError::Disconnected(4)));
}

#[test]
fn rendezvous_try_operations_do_not_block() {
    let (tx, rx) = sync_channel(0);
    assert_eq!(rx.try_recv(), Err(TryRecvError::Empty));
    assert_eq!(tx.try_send(9), Err(TrySendError::Full(9)));
    drop(rx);
    assert_eq!(tx.try_send(9), Err(TrySendError::Disconnected(9)));
}

#[test]
fn rendezvous_recv_after_sender_drop() {
    let (tx, rx): (_, Receiver<u8>) = sync_channel(0);
    drop(tx);
    assert_eq!(rx.try_recv(), Err(TryRecvError::Disconnected));
    assert!(rx.recv().is_err());
}

#[test]
fn timeout_then_success() {
    let (tx, rx) = channel();
    assert_eq!(rx.recv_timeout(Duration::from_millis(10)), Err(RecvTimeoutError::Timeout));
    tx.send(7).unwrap();
    assert_eq!(rx.recv(), Ok(7));
}

#[test]
fn recv_timeout_disconnected() {
    let (tx, rx): (_, Receiver<u8>) = channel();
    drop(tx);
    assert_eq!(rx.recv_timeout(Duration::from_millis(10)), Err(RecvTimeoutError::Disconnected));
}

#[test]
fn recv_timeout_rendezvous_times_out() {
    let (_tx, rx): (_, Receiver<u8>) = sync_channel(0);
    let start = Instant::now();
    assert_eq!(rx.recv_timeout(Duration::from_millis(20)), Err(RecvTimeoutError::Timeout));
    assert!(start.elapsed() >= Duration::from_millis(15));
}

#[test]
fn recv_deadline_already_past() {
    let (_tx, rx): (_, Receiver<u8>) = channel();
    let deadline = Instant::now();
    assert_eq!(rx.recv_deadline(deadline), Err(RecvTimeoutError::Timeout));
}

#[test]
fn multi_producer_fan_in() {
    let (tx, rx) = channel();
    let mut senders = Vec::new();
    for _ in 0..10 {
        senders.push(tx.clone());
    }
    drop(tx);
    for s in &senders {
        for v in 0..100 {
            s.send(v).unwrap();
        }
    }
    drop(senders);

    let mut counts = [0u32; 100];
    let mut total = 0u32;
    while let Ok(v) = rx.recv() {
        counts[v as usize] += 1;
        total += 1;
    }
    assert_eq!(total, 1000);
    for v in 0..100 {
        assert_eq!(counts[v], 10);
    }
}

#[test]
fn fifo_per_sender_interleaved() {
    let (tx, rx) = channel();
    let tx2 = tx.clone();
    tx.send((1, 1)).unwrap();
    tx2.send((2, 1)).unwrap();
    tx.send((1, 2)).unwrap();
    tx2.send((2, 2)).unwrap();
    tx.send((1, 3)).unwrap();
    drop(tx);
    drop(tx2);

    let mut from1 = Vec::new();
    let mut from2 = Vec::new();
    while let Ok((who, n)) = rx.recv() {
        if who == 1 {
            from1.push(n);
        } else {
            from2.push(n);
        }
    }
    assert_eq!(from1, vec![1, 2, 3]);
    assert_eq!(from2, vec![1, 2]);
}

#[test]
fn queue_fifo_and_capacity() {
    let q: Queue<u8> = Queue::bounded(2);
    assert_eq!(q.push(1), Ok(()));
    assert_eq!(q.push(2), Ok(()));
    assert_eq!(q.push(3), Err(3));
    assert_eq!(q.pop(), Some(1));
    assert_eq!(q.push(3), Ok(()));
    assert_eq!(q.pop(), Some(2));
    assert_eq!(q.pop(), Some(3));
    assert_eq!(q.pop(), None);
}

#[test]
fn queue_unbounded_never_fails() {
    let q: Queue<u32> = Queue::unbounded();
    for v in 0..1000 {
        assert_eq!(q.push(v), Ok(()));
    }
    for v in 0..1000 {
        assert_eq!(q.pop(), Some(v));
    }
    assert_eq!(q.pop(), None);
}

#[test]
fn token_wake_then_wait_returns() {
    let (a, b) = tokens();
    // a's wake sets the latch b waits on: the wait returns at once.
    a.wake();
    b.wait();
    // The plain wait leaves the latch set, so a timed wait right after
    // reports no timeout; it clears the latch on its way out.
    let deadline = Instant::now() + Duration::from_millis(100);
    assert!(!b.wait_until(deadline));
    // With the latch cleared and a still present, a timed wait now times out.
    let start = Instant::now();
    let deadline = Instant::now() + Duration::from_millis(20);
    assert!(b.wait_until(deadline));
    assert!(start.elapsed() >= Duration::from_millis(15));
}

#[test]
fn token_leave_unblocks_and_clears_presence() {
    let (a, b) = tokens();
    assert!(b.is_present());
    assert!(a.is_present());
    drop(a);
    assert!(!b.is_present());
    // The departed peer ends any wait immediately, timed or not.
    b.wait();
    let deadline = Instant::now() + Duration::from_millis(100);
    assert!(!b.wait_until(deadline));
}

#[test]
fn classify_recv_pins_every_case() {
    assert_eq!(classify_recv::<u8>(true, Some(3)), Ok(3));
    assert_eq!(classify_recv::<u8>(false, Some(3)), Ok(3));
    assert_eq!(classify_recv::<u8>(true, None), Err(TryRecvError::Empty));
    assert_eq!(classify_recv::<u8>(false, None), Err(TryRecvError::Disconnected));
}

#[test]
fn classify_send_failure_pins_every_case() {
    assert_eq!(classify_send_failure(true, 8), TrySendError::Full(8));
    assert_eq!(classify_send_failure(false, 8), TrySendError::Disconnected(8));
}

#[test]
fn try_iter_drains_what_is_there() {
    let (tx, rx) = channel();
    tx.send(1).unwrap();
    tx.send(2).unwrap();
    let mut it = rx.try_iter();
    assert_eq!(it.next(), Some(1));
    assert_eq!(it.next(), Some(2));
    assert_eq!(it.next(), None);
    tx.send(3).unwrap();
    let mut it = rx.try_iter();
    assert_eq!(it.next(), Some(3));
}

#[test]
fn iter_ends_on_disconnect() {
    let (tx, rx) = channel();
    tx.send(1).unwrap();
    tx.send(2).unwrap();
    drop(tx);
    let mut it = rx.iter();
    assert_eq!(it.next(), Some(1));
    assert_eq!(it.next(), Some(2));
    assert_eq!(it.next(), None);
}

#[test]
fn into_iter_ends_on_disconnect() {
    let (tx, rx) = channel();
    tx.send(4).unwrap();
    drop(tx);
    let mut it = rx.into_iter();
    assert_eq!(it.next(), Some(4));
    assert_eq!(it.next(), None);
}

#[test]
fn clone_shares_the_channel() {
    let (tx, rx) = channel();
    let tx2 = tx.clone();
    drop(tx);
    tx2.send(11).unwrap();
    assert_eq!(rx.recv(), Ok(11));
    drop(tx2);
    assert!(rx.recv().is_err());
}

#[test]
fn sync_sender_clone_shares_the_channel() {
    let (tx, rx) = sync_channel(4);
    let tx2 = tx.clone();
    tx.send(1).unwrap();
    tx2.send(2).unwrap();
    drop(tx);
    drop(tx2);
    assert_eq!(rx.recv(), Ok(1));
    assert_eq!(rx.recv(), Ok(2));
    assert!(rx.recv().is_err());
}

#[test]
fn send_returns_the_value_on_disconnect() {
    let (tx, rx) = channel();
    drop(rx);
    assert_eq!(tx.send(10), Err(SendError(10)));
    let (stx, srx) = sync_channel(3);
    drop(srx);
    assert_eq!(stx.send(11), Err(SendError(11)));
    let (ztx, zrx) = sync_channel(0);
    drop(zrx);
    assert_eq!(ztx.send(12), Err(SendError(12)));
}

#[test]
fn recv_error_converts_to_disconnected() {
    assert_eq!(RecvTimeoutError::from(RecvError), RecvTimeoutError::Disconnected);
}

#[test]
fn classify_recv_failure_pins_every_case() {
    assert_eq!(classify_recv_failure(true), TryRecvError::Empty);
    assert_eq!(classify_recv_failure(false), TryRecvError::Disconnected);
}

#[test]
fn classify_push_pins_every_case() {
    assert_eq!(classify_push::<u8>(true, Ok(())), Ok(()));
    assert_eq!(classify_push::<u8>(false, Ok(())), Ok(()));
    assert_eq!(classify_push(true, Err(6)), Err(TrySendError::Full(6)));
    assert_eq!(classify_push(false, Err(6)), Err(TrySendError::Disconnected(6)));
}

use ipckit::error::IpcError;
use ipckit::thread_channel::endpoints::{endpoints, unbounded_endpoints, Fetched, Handed};

#[test]
fn answers_of_the_queue_become_results() {
    assert!(Handed::<u8>::Queued.result().is_ok());
    assert!(matches!(Handed::Full(1u8).result(), Err(IpcError::WouldBlock)));
    assert!(matches!(Handed::TimedOut(1u8).result(), Err(IpcError::Timeout)));
    assert!(matches!(Handed::Disconnected(1u8).result(), Err(IpcError::Closed)));

    assert_eq!(Fetched::Message(7u8).result().unwrap(), 7);
    assert!(matches!(Fetched::<u8>::Empty.result(), Err(IpcError::WouldBlock)));
    assert!(matches!(Fetched::<u8>::TimedOut.result(), Err(IpcError::Timeout)));
    assert!(matches!(Fetched::<u8>::Disconnected.result(), Err(IpcError::Closed)));

    assert_eq!(Fetched::Message(7u8).result_after_shutdown().unwrap(), 7);
    assert!(matches!(Fetched::<u8>::Empty.result_after_shutdown(), Err(IpcError::Closed)));
    assert!(matches!(Fetched::<u8>::TimedOut.result_after_shutdown(), Err(IpcError::Closed)));
    assert!(matches!(Fetched::<u8>::Disconnected.result_after_shutdown(), Err(IpcError::Closed)));
}

#[test]
fn unbounded_endpoints_keep_the_order() {
    let (tx, rx) = unbounded_endpoints::<u32>();
    for n in 0..100 {
        tx.send(n).unwrap();
    }
    for n in 0..100 {
        assert_eq!(rx.recv().unwrap(), n);
    }
    assert!(matches!(rx.try_recv(), Err(IpcError::WouldBlock)));
}

#[test]
fn full_queue_refuses_and_times_out() {
    let (sender, receiver) = crossbeam_channel::bounded::<&str>(1);
    let (tx, rx) = endpoints(sender, receiver);
    tx.try_send("a").unwrap();
    assert!(matches!(tx.try_send("b"), Err(IpcError::WouldBlock)));
    assert!(matches!(tx.send_timeout("b", 5), Err(IpcError::Timeout)));
    assert_eq!(rx.recv().unwrap(), "a");
    tx.send_timeout("c", 5).unwrap();
    assert_eq!(rx.recv_timeout(5).unwrap(), "c");
}

#[test]
fn empty_queue_waits_and_times_out() {
    let (tx, rx) = unbounded_endpoints::<u8>();
    assert!(matches!(rx.try_recv(), Err(IpcError::WouldBlock)));
    assert!(matches!(rx.recv_timeout(5), Err(IpcError::Timeout)));
    tx.send(1).unwrap();
    assert_eq!(rx.try_recv().unwrap(), 1);
}

#[test]
fn last_sender_gone_closes_the_receiver() {
    let (tx, rx) = unbounded_endpoints::<u8>();
    let second = tx.another();
    tx.send(1).unwrap();
    drop(tx);
    second.send(2).unwrap();
    drop(second);
    assert_eq!(rx.recv().unwrap(), 1);
    assert_eq!(rx.recv_timeout(5).unwrap(), 2);
    assert!(matches!(rx.try_recv(), Err(IpcError::Closed)));
    assert!(matches!(rx.recv(), Err(IpcError::Closed)));
    assert!(matches!(rx.recv_timeout(5), Err(IpcError::Closed)));
}

#[test]
fn last_receiver_gone_closes_the_sender() {
    let (tx, rx) = unbounded_endpoints::<u8>();
    let second = rx.another();
    drop(rx);
    tx.send(1).unwrap();
    assert_eq!(second.recv().unwrap(), 1);
    drop(second);
    assert!(matches!(tx.try_send(2), Err(IpcError::Closed)));
    assert!(matches!(tx.send(2), Err(IpcError::Closed)));
    assert!(matches!(tx.send_timeout(2, 5), Err(IpcError::Closed)));
}

#[test]
fn shutdown_closes_senders_and_drains_receivers() {
    let (tx, rx) = unbounded_endpoints::<u8>();
    let other = tx.another();
    tx.send(1).unwrap();
    tx.send(2).unwrap();
    assert!(!rx.is_shutdown());
    rx.shutdown();
    assert!(tx.is_shutdown() && other.is_shutdown() && rx.is_shutdown());

    assert!(matches!(tx.send(3), Err(IpcError::Closed)));
    assert!(matches!(other.try_send(3), Err(IpcError::Closed)));
    assert!(matches!(tx.send_timeout(3, 5), Err(IpcError::Closed)));

    // What was queued before the shutdown can still be had; after it the
    // receiver does not wait, though senders are left.
    assert_eq!(rx.recv().unwrap(), 1);
    assert_eq!(rx.recv_timeout(1000).unwrap(), 2);
    assert!(matches!(rx.recv(), Err(IpcError::Closed)));
    assert!(matches!(rx.recv_timeout(1000), Err(IpcError::WouldBlock)));
    assert!(matches!(rx.try_recv(), Err(IpcError::WouldBlock)));
}

#[test]
fn caller_that_read_the_latch_is_gated() {
    let (tx, rx) = unbounded_endpoints::<u8>();
    assert!(matches!(tx.try_send_after(true, 1), Err(IpcError::Closed)));
    assert!(matches!(tx.send_after(true, 1), Err(IpcError::Closed)));
    assert!(matches!(tx.send_timeout_after(true, 1, 5), Err(IpcError::Closed)));
    assert!(matches!(rx.try_recv(), Err(IpcError::WouldBlock)));

    tx.try_send_after(false, 4).unwrap();
    tx.send_after(false, 5).unwrap();
    tx.send_timeout_after(false, 6, 5).unwrap();
    assert_eq!(rx.recv_after(false).unwrap(), 4);
    assert_eq!(rx.recv_after(true).unwrap(), 5);
    assert_eq!(rx.recv_timeout_after(true, 5).unwrap(), 6);
    assert!(matches!(rx.recv_after(true), Err(IpcError::Closed)));
    assert!(matches!(rx.recv_timeout_after(true, 5), Err(IpcError::WouldBlock)));
    assert!(matches!(rx.recv_timeout_after(false, 5), Err(IpcError::Timeout)));
}

//! The endpoints of a queue between threads, on `crossbeam_channel`.
//!
//! A sender and a receiver share one queue and one shutdown latch. What a
//! call finds in the queue depends on what other threads did to it, so a
//! contract here says which results a call can have, and which it has for
//! each answer of the queue; it does not say which answer the queue gives.

use crate::error::{IpcError, Result};
use crate::task_manager::CancellationToken;
use crossbeam_channel::{
    Receiver, RecvTimeoutError, SendTimeoutError, Sender, TryRecvError, TrySendError,
};
use std::time::Duration;
use vstd::prelude::*;

verus! {

/// `crossbeam_channel::Sender`: the sending side of a queue. Nothing of its
/// inside is known here.
#[verifier::external_type_specification]
#[verifier::external_body]
#[verifier::reject_recursive_types(T)]
pub struct ExSender<T>(crossbeam_channel::Sender<T>);

/// `crossbeam_channel::Receiver`: the receiving side of a queue. Nothing of
/// its inside is known here.
#[verifier::external_type_specification]
#[verifier::external_body]
#[verifier::reject_recursive_types(T)]
pub struct ExReceiver<T>(crossbeam_channel::Receiver<T>);

/// What became of a message that was handed to the queue.
pub enum Handed<T> {
    /// The queue took the message.
    Queued,
    /// The queue is full; the message comes back.
    Full(T),
    /// The queue stayed full for the whole time allowed; the message comes
    /// back.
    TimedOut(T),
    /// No receiver is left; the message comes back.
    Disconnected(T),
}

/// What the queue gave to a receiver that asked for a message.
pub enum Fetched<T> {
    /// The oldest message of the queue.
    Message(T),
    /// The queue is empty, and a sender is left.
    Empty,
    /// The queue stayed empty for the whole time allowed.
    TimedOut,
    /// The queue is empty, and no sender is left.
    Disconnected,
}

impl<T> Handed<T> {
    /// The result that a sender owes its caller for this answer of the
    /// queue.
    pub open spec fn owed(self) -> Result<()> {
        match self {
            Handed::Queued => Ok(()),
            Handed::Full(_) => Err(IpcError::WouldBlock),
            Handed::TimedOut(_) => Err(IpcError::Timeout),
            Handed::Disconnected(_) => Err(IpcError::Closed),
        }
    }

    /// Whether a message that comes back with this answer is `msg`.
    pub open spec fn gives_back(self, msg: T) -> bool {
        match self {
            Handed::Queued => true,
            Handed::Full(back) => back == msg,
            Handed::TimedOut(back) => back == msg,
            Handed::Disconnected(back) => back == msg,
        }
    }

    /// The result for the sender's caller.
    pub fn result(self) -> (r: Result<()>)
        ensures
            r == self.owed(),
    {
        match self {
            Handed::Queued => Ok(()),
            Handed::Full(_) => Err(IpcError::WouldBlock),
            Handed::TimedOut(_) => Err(IpcError::Timeout),
            Handed::Disconnected(_) => Err(IpcError::Closed),
        }
    }
}

impl<T> Fetched<T> {
    /// The result that a receiver owes its caller for this answer of the
    /// queue.
    pub open spec fn owed(self) -> Result<T> {
        match self {
            Fetched::Message(msg) => Ok(msg),
            Fetched::Empty => Err(IpcError::WouldBlock),
            Fetched::TimedOut => Err(IpcError::Timeout),
            Fetched::Disconnected => Err(IpcError::Closed),
        }
    }

    /// The result that a receiver owes its caller once the channel has been
    /// shut down: a message that was still queued, and `Closed` in every
    /// other case.
    pub open spec fn owed_after_shutdown(self) -> Result<T> {
        match self {
            Fetched::Message(msg) => Ok(msg),
            _ => Err(IpcError::Closed),
        }
    }

    /// The result for the receiver's caller.
    pub fn result(self) -> (r: Result<T>)
        ensures
            r == self.owed(),
    {
        match self {
            Fetched::Message(msg) => Ok(msg),
            Fetched::Empty => Err(IpcError::WouldBlock),
            Fetched::TimedOut => Err(IpcError::Timeout),
            Fetched::Disconnected => Err(IpcError::Closed),
        }
    }

    /// The result for the caller of a receiver that drains a channel after
    /// its shutdown.
    pub fn result_after_shutdown(self) -> (r: Result<T>)
        ensures
            r == self.owed_after_shutdown(),
    {
        match self {
            Fetched::Message(msg) => Ok(msg),
            _ => Err(IpcError::Closed),
        }
    }
}

/// `crossbeam_channel::unbounded`: the two sides of a new queue without a
/// limit. Nothing is claimed of them.
#[verifier::external_body]
fn unbounded_queue<T>() -> (sides: (Sender<T>, Receiver<T>)) {
    crossbeam_channel::unbounded()
}

/// `Sender::clone`: one more sender of the same queue. Nothing is claimed
/// of it.
#[verifier::external_body]
fn another_sender<T>(sender: &Sender<T>) -> (copy: Sender<T>) {
    sender.clone()
}

/// `Receiver::clone`: one more receiver of the same queue. Nothing is
/// claimed of it.
#[verifier::external_body]
fn another_receiver<T>(receiver: &Receiver<T>) -> (copy: Receiver<T>) {
    receiver.clone()
}

/// `Sender::try_send`: hands the message to the queue without waiting. The
/// call never answers with a timeout, and a message that the queue does not
/// take comes back as it was.
#[verifier::external_body]
fn offer<T>(sender: &Sender<T>, msg: T) -> (handed: Handed<T>)
    ensures
        !(handed is TimedOut),
        handed.gives_back(msg),
{
    match sender.try_send(msg) {
        Ok(()) => Handed::Queued,
        Err(TrySendError::Full(back)) => Handed::Full(back),
        Err(TrySendError::Disconnected(back)) => Handed::Disconnected(back),
    }
}

/// `Sender::send`: hands the message to the queue and waits while the queue
/// is full. The call fails only where no receiver is left, and the message
/// then comes back as it was.
#[verifier::external_body]
fn hand_over<T>(sender: &Sender<T>, msg: T) -> (handed: Handed<T>)
    ensures
        handed is Queued || handed is Disconnected,
        handed.gives_back(msg),
{
    match sender.send(msg) {
        Ok(()) => Handed::Queued,
        Err(error) => Handed::Disconnected(error.into_inner()),
    }
}

/// `Sender::send_timeout`: hands the message to the queue and waits for
/// room for at most `timeout_ms` milliseconds. The call never answers that
/// the queue is full without saying that the time is over, and a message
/// that the queue does not take comes back as it was.
#[verifier::external_body]
fn hand_over_within<T>(sender: &Sender<T>, msg: T, timeout_ms: u64) -> (handed: Handed<T>)
    ensures
        !(handed is Full),
        handed.gives_back(msg),
{
    match sender.send_timeout(msg, Duration::from_millis(timeout_ms)) {
        Ok(()) => Handed::Queued,
        Err(SendTimeoutError::Timeout(back)) => Handed::TimedOut(back),
        Err(SendTimeoutError::Disconnected(back)) => Handed::Disconnected(back),
    }
}

/// `Receiver::try_recv`: asks the queue for a message without waiting. The
/// call never answers with a timeout.
#[verifier::external_body]
fn fetch_now<T>(receiver: &Receiver<T>) -> (fetched: Fetched<T>)
    ensures
        !(fetched is TimedOut),
{
    match receiver.try_recv() {
        Ok(msg) => Fetched::Message(msg),
        Err(TryRecvError::Empty) => Fetched::Empty,
        Err(TryRecvError::Disconnected) => Fetched::Disconnected,
    }
}

/// `Receiver::recv`: asks the queue for a message and waits while the queue
/// is empty. The call fails only where the queue is empty and no sender is
/// left.
#[verifier::external_body]
fn fetch<T>(receiver: &Receiver<T>) -> (fetched: Fetched<T>)
    ensures
        fetched is Message || fetched is Disconnected,
{
    match receiver.recv() {
        Ok(msg) => Fetched::Message(msg),
        Err(_) => Fetched::Disconnected,
    }
}

/// `Receiver::recv_timeout`: asks the queue for a message and waits for one
/// for at most `timeout_ms` milliseconds. The call never answers that the
/// queue is empty without saying that the time is over.
#[verifier::external_body]
fn fetch_within<T>(receiver: &Receiver<T>, timeout_ms: u64) -> (fetched: Fetched<T>)
    ensures
        !(fetched is Empty),
{
    match receiver.recv_timeout(Duration::from_millis(timeout_ms)) {
        Ok(msg) => Fetched::Message(msg),
        Err(RecvTimeoutError::Timeout) => Fetched::TimedOut,
        Err(RecvTimeoutError::Disconnected) => Fetched::Disconnected,
    }
}

/// The sending endpoint of a channel between threads. Copies made with
/// `another` send into the same queue and share the shutdown latch.
#[verifier::reject_recursive_types(T)]
pub struct ThreadSender<T> {
    inner: Sender<T>,
    closed: CancellationToken,
}

/// The receiving endpoint of a channel between threads. Copies made with
/// `another` receive from the same queue and share the shutdown latch.
#[verifier::reject_recursive_types(T)]
pub struct ThreadReceiver<T> {
    inner: Receiver<T>,
    closed: CancellationToken,
}

/// Makes the two endpoints of a channel from the two sides of a queue, with
/// a shutdown latch of their own that is not set.
pub fn endpoints<T>(sender: Sender<T>, receiver: Receiver<T>) -> (ends: (
    ThreadSender<T>,
    ThreadReceiver<T>,
))
    ensures
        ends.0.latch() == ends.1.latch(),
{
    let closed = CancellationToken::new();
    let shared = closed.child();
    (ThreadSender { inner: sender, closed }, ThreadReceiver { inner: receiver, closed: shared })
}

/// The two endpoints of a new channel whose queue has no limit.
pub fn unbounded_endpoints<T>() -> (ends: (ThreadSender<T>, ThreadReceiver<T>))
    ensures
        ends.0.latch() == ends.1.latch(),
{
    let (sender, receiver) = unbounded_queue();
    endpoints(sender, receiver)
}

impl<T> ThreadSender<T> {
    /// The shutdown latch that the endpoint shares with the others of its
    /// channel.
    pub closed spec fn latch(&self) -> CancellationToken {
        self.closed
    }

    /// One more sender of the same channel.
    pub fn another(&self) -> (copy: Self)
        ensures
            copy.latch() == self.latch(),
    {
        ThreadSender { inner: another_sender(&self.inner), closed: self.closed.child() }
    }

    /// Tries to send without waiting, for a caller that has read the
    /// shutdown latch as `shutdown`. After a shutdown nothing is handed to
    /// the queue and the call fails with `Closed`. Before it, the message is
    /// offered to the queue: the call succeeds where the queue takes it,
    /// fails with `WouldBlock` where the queue is full and with `Closed`
    /// where no receiver is left.
    pub fn try_send_after(&self, shutdown: bool, msg: T) -> (r: Result<()>)
        ensures
            shutdown ==> r == Err::<(), IpcError>(IpcError::Closed),
            r is Ok || r == Err::<(), IpcError>(IpcError::WouldBlock) || r == Err::<(), IpcError>(
                IpcError::Closed,
            ),
    {
        if shutdown {
            return Err(IpcError::Closed);
        }
        offer(&self.inner, msg).result()
    }

    /// Sends, for a caller that has read the shutdown latch as `shutdown`,
    /// and waits while the queue is full. After a shutdown nothing is handed
    /// to the queue and the call fails with `Closed`; before it the call
    /// fails, with `Closed`, only where no receiver is left.
    pub fn send_after(&self, shutdown: bool, msg: T) -> (r: Result<()>)
        ensures
            shutdown ==> r == Err::<(), IpcError>(IpcError::Closed),
            r is Ok || r == Err::<(), IpcError>(IpcError::Closed),
    {
        if shutdown {
            return Err(IpcError::Closed);
        }
        hand_over(&self.inner, msg).result()
    }

    /// Sends, for a caller that has read the shutdown latch as `shutdown`,
    /// and waits for room for at most `timeout_ms` milliseconds. After a
    /// shutdown nothing is handed to the queue and the call fails with
    /// `Closed`. Before it the call fails with `Timeout` where the time is
    /// over and with `Closed` where no receiver is left.
    pub fn send_timeout_after(&self, shutdown: bool, msg: T, timeout_ms: u64) -> (r: Result<()>)
        ensures
            shutdown ==> r == Err::<(), IpcError>(IpcError::Closed),
            r is Ok || r == Err::<(), IpcError>(IpcError::Timeout) || r == Err::<(), IpcError>(
                IpcError::Closed,
            ),
    {
        if shutdown {
            return Err(IpcError::Closed);
        }
        hand_over_within(&self.inner, msg, timeout_ms).result()
    }

    /// Tries to send without waiting: reads the shutdown latch, and does
    /// what `try_send_after` says for what it read.
    pub fn try_send(&self, msg: T) -> (r: Result<()>)
        ensures
            r is Ok || r == Err::<(), IpcError>(IpcError::WouldBlock) || r == Err::<(), IpcError>(
                IpcError::Closed,
            ),
    {
        self.try_send_after(self.is_shutdown(), msg)
    }

    /// Sends and waits while the queue is full: reads the shutdown latch,
    /// and does what `send_after` says for what it read.
    pub fn send(&self, msg: T) -> (r: Result<()>)
        ensures
            r is Ok || r == Err::<(), IpcError>(IpcError::Closed),
    {
        self.send_after(self.is_shutdown(), msg)
    }

    /// Sends and waits for room for at most `timeout_ms` milliseconds:
    /// reads the shutdown latch, and does what `send_timeout_after` says for
    /// what it read.
    pub fn send_timeout(&self, msg: T, timeout_ms: u64) -> (r: Result<()>)
        ensures
            r is Ok || r == Err::<(), IpcError>(IpcError::Timeout) || r == Err::<(), IpcError>(
                IpcError::Closed,
            ),
    {
        self.send_timeout_after(self.is_shutdown(), msg, timeout_ms)
    }

    /// Whether the shutdown latch is set, at the moment of the call.
    pub fn is_shutdown(&self) -> (b: bool) {
        self.closed.is_cancelled()
    }

    /// Sets the shutdown latch, for every endpoint of the channel.
    pub fn shutdown(&self) {
        self.closed.cancel();
    }
}

impl<T> ThreadReceiver<T> {
    /// The shutdown latch that the endpoint shares with the others of its
    /// channel.
    pub closed spec fn latch(&self) -> CancellationToken {
        self.closed
    }

    /// One more receiver of the same channel.
    pub fn another(&self) -> (copy: Self)
        ensures
            copy.latch() == self.latch(),
    {
        ThreadReceiver { inner: another_receiver(&self.inner), closed: self.closed.child() }
    }

    /// Tries to receive without waiting, whether or not the channel has
    /// been shut down: the oldest message where the queue has one,
    /// `WouldBlock` where it is empty and a sender is left, `Closed` where
    /// it is empty and none is left.
    pub fn try_recv(&self) -> (r: Result<T>)
        ensures
            r is Ok || r == Err::<T, IpcError>(IpcError::WouldBlock) || r == Err::<T, IpcError>(
                IpcError::Closed,
            ),
    {
        fetch_now(&self.inner).result()
    }

    /// Receives, for a caller that has read the shutdown latch as
    /// `shutdown`. After a shutdown the call does not wait: it takes a
    /// message that is still queued and fails with `Closed` where there is
    /// none. Before it the call waits while the queue is empty, and fails,
    /// with `Closed`, only where the queue is empty and no sender is left.
    pub fn recv_after(&self, shutdown: bool) -> (r: Result<T>)
        ensures
            r is Ok || r == Err::<T, IpcError>(IpcError::Closed),
    {
        if shutdown {
            fetch_now(&self.inner).result_after_shutdown()
        } else {
            fetch(&self.inner).result()
        }
    }

    /// Receives, for a caller that has read the shutdown latch as
    /// `shutdown`, and waits for at most `timeout_ms` milliseconds. After a
    /// shutdown the call does not wait and does what `try_recv` does, so
    /// that it never fails with `Timeout`. Before it the call fails with
    /// `Timeout` where the time is over and with `Closed` where the queue is
    /// empty and no sender is left, and never with `WouldBlock`.
    pub fn recv_timeout_after(&self, shutdown: bool, timeout_ms: u64) -> (r: Result<T>)
        ensures
            r is Ok || r == Err::<T, IpcError>(IpcError::Closed) || r == Err::<T, IpcError>(
                if shutdown {
                    IpcError::WouldBlock
                } else {
                    IpcError::Timeout
                },
            ),
    {
        if shutdown {
            self.try_recv()
        } else {
            fetch_within(&self.inner, timeout_ms).result()
        }
    }

    /// Receives: reads the shutdown latch, and does what `recv_after` says
    /// for what it read.
    pub fn recv(&self) -> (r: Result<T>)
        ensures
            r is Ok || r == Err::<T, IpcError>(IpcError::Closed),
    {
        self.recv_after(self.is_shutdown())
    }

    /// Receives and waits for at most `timeout_ms` milliseconds: reads the
    /// shutdown latch, and does what `recv_timeout_after` says for what it
    /// read.
    pub fn recv_timeout(&self, timeout_ms: u64) -> (r: Result<T>)
        ensures
            r is Ok || r == Err::<T, IpcError>(IpcError::Closed) || r == Err::<T, IpcError>(
                IpcError::WouldBlock,
            ) || r == Err::<T, IpcError>(IpcError::Timeout),
    {
        self.recv_timeout_after(self.is_shutdown(), timeout_ms)
    }

    /// Whether the shutdown latch is set, at the moment of the call.
    pub fn is_shutdown(&self) -> (b: bool) {
        self.closed.is_cancelled()
    }

    /// Sets the shutdown latch, for every endpoint of the channel.
    pub fn shutdown(&self) {
        self.closed.cancel();
    }
}

} // verus!

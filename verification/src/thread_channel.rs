//! A queue between producers and consumers.
//!
//! `ThreadChannel` is a channel that one owner holds whole: the queued
//! messages, the capacity, how many endpoints of each side are alive, and the
//! shutdown latch. Its contracts say exactly what every operation does to
//! that state. An operation never waits: where a blocking operation would
//! have to wait, it fails with `WouldBlock`, and the caller waits and repeats
//! it.
//!
//! The module `endpoints` holds the senders and receivers that threads
//! share. Their queue is one of `crossbeam_channel`, and what a call finds in
//! it depends on the other threads; their contracts say which results a call
//! can have.

use crate::error::{IpcError, Result};
use crate::graceful::{DrainStep, GracefulChannel};
use std::collections::VecDeque;
use vstd::prelude::*;

pub mod endpoints;

verus! {

/// The mathematical model of a channel.
pub struct ChannelModel<T> {
    /// The queued messages, oldest first.
    pub queue: Seq<T>,
    /// The most messages that the queue holds; `None` for no bound.
    pub capacity: Option<nat>,
    /// The number of senders alive.
    pub senders: nat,
    /// The number of receivers alive.
    pub receivers: nat,
    /// Whether shutdown has been signalled.
    pub shutdown: bool,
}

impl<T> ChannelModel<T> {
    /// Whether the queue has no room.
    pub open spec fn full(self) -> bool {
        self.capacity matches Some(limit) && self.queue.len() >= limit
    }

    /// Why a message cannot be sent now, if it cannot: `Closed` after
    /// shutdown and where no receiver is alive, `WouldBlock` where the queue
    /// has no room.
    pub open spec fn send_refusal(self) -> Option<IpcError> {
        if self.shutdown || self.receivers == 0 {
            Some(IpcError::Closed)
        } else if self.full() {
            Some(IpcError::WouldBlock)
        } else {
            None
        }
    }

    /// The channel after `msg` was sent.
    pub open spec fn pushed(self, msg: T) -> ChannelModel<T> {
        ChannelModel { queue: self.queue.push(msg), ..self }
    }

    /// The channel after its oldest message was received.
    pub open spec fn popped(self) -> ChannelModel<T> {
        ChannelModel { queue: self.queue.drop_first(), ..self }
    }

    /// Why nothing can be received without waiting from an empty queue:
    /// `Closed` where no sender is alive, `WouldBlock` otherwise.
    pub open spec fn empty_refusal(self) -> IpcError {
        if self.senders == 0 {
            IpcError::Closed
        } else {
            IpcError::WouldBlock
        }
    }

    /// Why a blocking receive gets nothing from an empty queue: `Closed`
    /// after shutdown and where no sender is alive, `WouldBlock` where the
    /// caller has to wait.
    pub open spec fn wait_refusal(self) -> IpcError {
        if self.shutdown || self.senders == 0 {
            IpcError::Closed
        } else {
            IpcError::WouldBlock
        }
    }
}

/// A channel between the threads of one process, seen as the state that its
/// endpoints share.
#[derive(Debug)]
pub struct ThreadChannel<T> {
    queue: VecDeque<T>,
    capacity: Option<usize>,
    senders: usize,
    receivers: usize,
    shutdown: bool,
}

impl<T> View for ThreadChannel<T> {
    type V = ChannelModel<T>;

    closed spec fn view(&self) -> ChannelModel<T> {
        ChannelModel {
            queue: self.queue@,
            capacity: match self.capacity {
                Some(limit) => Some(limit as nat),
                None => None,
            },
            senders: self.senders as nat,
            receivers: self.receivers as nat,
            shutdown: self.shutdown,
        }
    }
}

impl<T> ThreadChannel<T> {
    /// Create a new unbounded channel, with one sender and one receiver.
    pub fn new_unbounded() -> (c: Self)
        ensures
            c@ == (ChannelModel::<T> {
                queue: Seq::empty(),
                capacity: None,
                senders: 1,
                receivers: 1,
                shutdown: false,
            }),
    {
        ThreadChannel {
            queue: VecDeque::new(),
            capacity: None,
            senders: 1,
            receivers: 1,
            shutdown: false,
        }
    }

    /// Create a new bounded channel with the given capacity, with one sender
    /// and one receiver.
    pub fn new_bounded(capacity: usize) -> (c: Self)
        ensures
            c@ == (ChannelModel::<T> {
                queue: Seq::empty(),
                capacity: Some(capacity as nat),
                senders: 1,
                receivers: 1,
                shutdown: false,
            }),
    {
        ThreadChannel {
            queue: VecDeque::new(),
            capacity: Some(capacity),
            senders: 1,
            receivers: 1,
            shutdown: false,
        }
    }

    /// Create a new unbounded channel.
    pub fn unbounded() -> (c: Self)
        ensures
            c@ == (ChannelModel::<T> {
                queue: Seq::empty(),
                capacity: None,
                senders: 1,
                receivers: 1,
                shutdown: false,
            }),
    {
        ThreadChannel::new_unbounded()
    }

    /// Create a new bounded channel with the given capacity.
    pub fn bounded(capacity: usize) -> (c: Self)
        ensures
            c@ == (ChannelModel::<T> {
                queue: Seq::empty(),
                capacity: Some(capacity as nat),
                senders: 1,
                receivers: 1,
                shutdown: false,
            }),
    {
        ThreadChannel::new_bounded(capacity)
    }

    /// Whether the queue has no room.
    fn has_no_room(&self) -> (b: bool)
        ensures
            b == self@.full(),
    {
        match self.capacity {
            Some(limit) => self.queue.len() >= limit,
            None => false,
        }
    }

    /// Sends a message without waiting. The message is dropped where the
    /// call fails.
    pub fn try_send(&mut self, msg: T) -> (r: Result<()>)
        ensures
            match old(self)@.send_refusal() {
                Some(e) => r == Err::<(), IpcError>(e) && final(self)@ == old(self)@,
                None => r is Ok && final(self)@ == old(self)@.pushed(msg),
            },
    {
        if self.shutdown || self.receivers == 0 {
            return Err(IpcError::Closed);
        }
        if self.has_no_room() {
            return Err(IpcError::WouldBlock);
        }
        self.queue.push_back(msg);
        Ok(())
    }

    /// Sends a message. Where the queue has no room the call fails with
    /// `WouldBlock`: the sender waits for a receiver and sends again.
    pub fn send(&mut self, msg: T) -> (r: Result<()>)
        ensures
            match old(self)@.send_refusal() {
                Some(e) => r == Err::<(), IpcError>(e) && final(self)@ == old(self)@,
                None => r is Ok && final(self)@ == old(self)@.pushed(msg),
            },
    {
        self.try_send(msg)
    }

    /// One step of sending with a deadline: as `send`, but where the queue
    /// has no room and `waited_ms` has reached `timeout_ms` the call fails
    /// with `Timeout`.
    pub fn send_timeout(&mut self, msg: T, waited_ms: u64, timeout_ms: u64) -> (r: Result<()>)
        ensures
            match old(self)@.send_refusal() {
                Some(e) => final(self)@ == old(self)@ && r == Err::<(), IpcError>(
                    if e is WouldBlock && waited_ms >= timeout_ms {
                        IpcError::Timeout
                    } else {
                        e
                    },
                ),
                None => r is Ok && final(self)@ == old(self)@.pushed(msg),
            },
    {
        if self.shutdown || self.receivers == 0 {
            return Err(IpcError::Closed);
        }
        if self.has_no_room() {
            if waited_ms >= timeout_ms {
                return Err(IpcError::Timeout);
            }
            return Err(IpcError::WouldBlock);
        }
        self.queue.push_back(msg);
        Ok(())
    }

    /// Receives the oldest message without waiting. Queued messages are
    /// handed out also after shutdown and after the last sender is gone.
    pub fn try_recv(&mut self) -> (r: Result<T>)
        ensures
            old(self)@.queue.len() > 0 ==> r == Ok::<T, IpcError>(old(self)@.queue[0])
                && final(self)@ == old(self)@.popped(),
            old(self)@.queue.len() == 0 ==> r == Err::<T, IpcError>(old(self)@.empty_refusal())
                && final(self)@ == old(self)@,
    {
        match self.queue.pop_front() {
            Some(msg) => {
                assert(self.queue@ =~= old(self).queue@.drop_first());
                Ok(msg)
            },
            None => {
                if self.senders == 0 {
                    Err(IpcError::Closed)
                } else {
                    Err(IpcError::WouldBlock)
                }
            },
        }
    }

    /// Receives the oldest message. Where the queue is empty the call fails:
    /// with `Closed` after shutdown and where no sender is alive, with
    /// `WouldBlock` where the receiver has to wait for a sender.
    pub fn recv(&mut self) -> (r: Result<T>)
        ensures
            old(self)@.queue.len() > 0 ==> r == Ok::<T, IpcError>(old(self)@.queue[0])
                && final(self)@ == old(self)@.popped(),
            old(self)@.queue.len() == 0 ==> r == Err::<T, IpcError>(old(self)@.wait_refusal())
                && final(self)@ == old(self)@,
    {
        match self.queue.pop_front() {
            Some(msg) => {
                assert(self.queue@ =~= old(self).queue@.drop_first());
                Ok(msg)
            },
            None => {
                if self.shutdown || self.senders == 0 {
                    Err(IpcError::Closed)
                } else {
                    Err(IpcError::WouldBlock)
                }
            },
        }
    }

    /// One step of receiving with a deadline. After shutdown the call is
    /// `try_recv`. Before, it is `recv`, but where the queue is empty, a
    /// sender is alive and `waited_ms` has reached `timeout_ms` it fails with
    /// `Timeout`.
    pub fn recv_timeout(&mut self, waited_ms: u64, timeout_ms: u64) -> (r: Result<T>)
        ensures
            old(self)@.queue.len() > 0 ==> r == Ok::<T, IpcError>(old(self)@.queue[0])
                && final(self)@ == old(self)@.popped(),
            old(self)@.queue.len() == 0 ==> final(self)@ == old(self)@ && r == Err::<T, IpcError>(
                if old(self)@.shutdown {
                    old(self)@.empty_refusal()
                } else if old(self)@.senders == 0 {
                    IpcError::Closed
                } else if waited_ms >= timeout_ms {
                    IpcError::Timeout
                } else {
                    IpcError::WouldBlock
                },
            ),
    {
        match self.queue.pop_front() {
            Some(msg) => {
                assert(self.queue@ =~= old(self).queue@.drop_first());
                Ok(msg)
            },
            None => {
                if self.senders == 0 {
                    Err(IpcError::Closed)
                } else if self.shutdown {
                    Err(IpcError::WouldBlock)
                } else if waited_ms >= timeout_ms {
                    Err(IpcError::Timeout)
                } else {
                    Err(IpcError::WouldBlock)
                }
            },
        }
    }

    /// Counts one more sender. The count stays where it is at `usize::MAX`.
    pub fn clone_sender(&mut self)
        ensures
            final(self)@ == (ChannelModel {
                senders: if old(self)@.senders < usize::MAX {
                    old(self)@.senders + 1
                } else {
                    old(self)@.senders
                },
                ..old(self)@
            }),
    {
        if self.senders < usize::MAX {
            self.senders = self.senders + 1;
        }
    }

    /// Counts one sender less. With the last sender gone, receivers find the
    /// channel closed once the queue is empty.
    pub fn drop_sender(&mut self)
        ensures
            final(self)@ == (ChannelModel {
                senders: if old(self)@.senders > 0 {
                    (old(self)@.senders - 1) as nat
                } else {
                    0
                },
                ..old(self)@
            }),
    {
        if self.senders > 0 {
            self.senders = self.senders - 1;
        }
    }

    /// Counts one more receiver. The count stays where it is at `usize::MAX`.
    pub fn clone_receiver(&mut self)
        ensures
            final(self)@ == (ChannelModel {
                receivers: if old(self)@.receivers < usize::MAX {
                    old(self)@.receivers + 1
                } else {
                    old(self)@.receivers
                },
                ..old(self)@
            }),
    {
        if self.receivers < usize::MAX {
            self.receivers = self.receivers + 1;
        }
    }

    /// Counts one receiver less. With the last receiver gone, senders find
    /// the channel closed.
    pub fn drop_receiver(&mut self)
        ensures
            final(self)@ == (ChannelModel {
                receivers: if old(self)@.receivers > 0 {
                    (old(self)@.receivers - 1) as nat
                } else {
                    0
                },
                ..old(self)@
            }),
    {
        if self.receivers > 0 {
            self.receivers = self.receivers - 1;
        }
    }

    /// Check if the channel is empty.
    pub fn is_empty(&self) -> (b: bool)
        ensures
            b == (self@.queue.len() == 0),
    {
        self.queue.len() == 0
    }

    /// Check if the channel is full (always false for unbounded channels).
    pub fn is_full(&self) -> (b: bool)
        ensures
            b == self@.full(),
    {
        self.has_no_room()
    }

    /// Get the number of messages in the channel.
    pub fn len(&self) -> (n: usize)
        ensures
            n == self@.queue.len(),
    {
        self.queue.len()
    }

    /// Get the capacity of the channel (None for unbounded channels).
    pub fn capacity(&self) -> (c: Option<usize>)
        ensures
            match c {
                Some(limit) => self@.capacity == Some(limit as nat),
                None => self@.capacity is None,
            },
    {
        self.capacity
    }

    /// Check if the channel has been shutdown.
    pub fn is_shutdown(&self) -> (b: bool)
        ensures
            b == self@.shutdown,
    {
        self.shutdown
    }

    /// Shutdown the channel: sends fail with `Closed` from now on; receives
    /// hand out what is queued, then fail with `Closed`.
    pub fn shutdown(&mut self)
        ensures
            final(self)@ == (ChannelModel { shutdown: true, ..old(self)@ }),
    {
        self.shutdown = true;
    }

    /// Takes all queued messages off the channel, oldest first.
    pub fn try_iter(&mut self) -> (messages: Vec<T>)
        ensures
            messages@ == old(self)@.queue,
            final(self)@ == (ChannelModel { queue: Seq::empty(), ..old(self)@ }),
    {
        let mut messages: Vec<T> = Vec::new();
        loop
            invariant
                self.capacity == old(self).capacity,
                self.senders == old(self).senders,
                self.receivers == old(self).receivers,
                self.shutdown == old(self).shutdown,
                messages@ + self.queue@ == old(self).queue@,
            decreases self.queue@.len(),
        {
            match self.queue.pop_front() {
                Some(msg) => {
                    let ghost before = messages@;
                    messages.push(msg);
                    assert(messages@ + self.queue@ =~= before + (seq![msg] + self.queue@));
                },
                None => {
                    assert(self.queue@ =~= Seq::empty());
                    assert(messages@ =~= messages@ + self.queue@);
                    return messages;
                },
            }
        }
    }
}

impl<T> GracefulChannel for ThreadChannel<T> {
    open spec fn shutdown_signalled(&self) -> bool {
        self@.shutdown
    }

    open spec fn in_flight(&self) -> nat {
        self@.queue.len()
    }

    fn shutdown(&mut self) {
        self.shutdown = true;
    }

    fn is_shutdown(&self) -> (b: bool) {
        self.shutdown
    }

    /// Takes all queued messages off the channel and drops them.
    fn drain(&mut self) -> (r: Result<DrainStep>) {
        self.queue.clear();
        Ok(DrainStep::Drained)
    }

    /// Signals shutdown, then takes one queued message off the channel
    /// unless the deadline has passed.
    fn shutdown_timeout(&mut self, waited_ms: u64, timeout_ms: u64) -> (r: Result<DrainStep>) {
        self.shutdown = true;
        if self.queue.len() == 0 {
            return Ok(DrainStep::Drained);
        }
        if waited_ms >= timeout_ms {
            return Err(IpcError::Timeout);
        }
        let _ = self.queue.pop_front();
        Ok(DrainStep::Wait)
    }
}

/// A channel with room for one message is full after one send: a second
/// message is refused with `WouldBlock` until a message is received.
pub proof fn lemma_bounded_one<T>(channel: ChannelModel<T>, first: T)
    requires
        channel.capacity == Some(1nat),
        channel.queue.len() == 0,
        channel.send_refusal() is None,
    ensures
        channel.pushed(first).send_refusal() == Some(IpcError::WouldBlock),
        channel.pushed(first).popped().send_refusal() is None,
        channel.pushed(first).popped().queue.len() == 0,
{
}

/// With every sender gone, a receiver finds an empty channel closed, with
/// and without waiting.
pub proof fn lemma_no_sender_closes<T>(channel: ChannelModel<T>)
    requires
        channel.senders == 0,
        channel.queue.len() == 0,
    ensures
        channel.empty_refusal() == IpcError::Closed,
        channel.wait_refusal() == IpcError::Closed,
{
}

} // verus!

//! Graceful shutdown: a latch that closes a channel to new operations, a
//! counter of the operations still in flight, and the drain that waits for
//! them.

use crate::channel::{
    frame_received, frame_sent, value_received, ByteStream, IpcChannel, Wire,
};
use crate::error::{IoErrorKind, IpcError, Result};
use crate::json::json_encoding;
use vstd::prelude::*;

verus! {

/// What a caller that drains a channel does next.
#[derive(Debug, Clone, Copy, PartialEq, Eq, Structural)]
pub enum DrainStep {
    /// No operation is in flight: the drain is complete.
    Drained,
    /// Operations are in flight and the deadline has not passed: sleep a
    /// moment and ask again.
    Wait,
}

/// Channels that support graceful shutdown.
pub trait GracefulChannel {
    /// Whether shutdown has been signalled.
    spec fn shutdown_signalled(&self) -> bool;

    /// The number of operations, or of messages, that a drain waits for.
    spec fn in_flight(&self) -> nat;

    /// Signals the channel to shut down. New operations fail with `Closed`
    /// from now on; what is in flight is not touched.
    fn shutdown(&mut self)
        ensures
            final(self).shutdown_signalled(),
            final(self).in_flight() == old(self).in_flight(),
    ;

    /// Whether the channel has been signalled to shut down.
    fn is_shutdown(&self) -> (b: bool)
        ensures
            b == self.shutdown_signalled(),
    ;

    /// One step of waiting, without a deadline, for what is in flight. The
    /// step may take messages off the channel; it adds nothing.
    fn drain(&mut self) -> (r: Result<DrainStep>)
        ensures
            final(self).shutdown_signalled() == old(self).shutdown_signalled(),
            final(self).in_flight() <= old(self).in_flight(),
            r == Ok::<DrainStep, IpcError>(drain_step(final(self).in_flight())),
    ;

    /// Signals shutdown, then makes one step of a drain that began
    /// `waited_ms` ago and gives up after `timeout_ms`.
    fn shutdown_timeout(&mut self, waited_ms: u64, timeout_ms: u64) -> (r: Result<DrainStep>)
        ensures
            final(self).shutdown_signalled(),
            final(self).in_flight() <= old(self).in_flight(),
            drain_outcome(old(self).in_flight(), waited_ms, Some(timeout_ms)) matches Some(step)
                ==> r == Ok::<DrainStep, IpcError>(step),
            drain_outcome(old(self).in_flight(), waited_ms, Some(timeout_ms)) is None ==> r
                == Err::<DrainStep, IpcError>(IpcError::Timeout) && final(self).in_flight()
                == old(self).in_flight(),
    ;
}

/// The step of a drain without a deadline.
pub open spec fn drain_step(pending: nat) -> DrainStep {
    if pending == 0 {
        DrainStep::Drained
    } else {
        DrainStep::Wait
    }
}

/// The step of a drain that began `waited_ms` ago: `None` when its deadline
/// has passed with operations still in flight.
pub open spec fn drain_outcome(pending: nat, waited_ms: u64, timeout_ms: Option<u64>) -> Option<
    DrainStep,
> {
    if pending == 0 {
        Some(DrainStep::Drained)
    } else if timeout_ms is Some && waited_ms >= timeout_ms->Some_0 {
        None
    } else {
        Some(DrainStep::Wait)
    }
}

/// The mathematical model of a shutdown state.
pub struct ShutdownModel {
    /// Whether shutdown has been signalled.
    pub shutdown: bool,
    /// The number of operations in flight.
    pub pending: nat,
}

/// An operation on a shutdown state.
pub enum ShutdownOp {
    /// `shutdown`
    Shutdown,
    /// `begin_operation`
    Begin,
    /// `end_operation`
    End,
}

impl ShutdownModel {
    /// The state after one operation. A `Begin` on a state that is shut down
    /// changes nothing, and so does an `End` on an idle state.
    pub open spec fn step(self, op: ShutdownOp) -> ShutdownModel {
        match op {
            ShutdownOp::Shutdown => ShutdownModel { shutdown: true, pending: self.pending },
            ShutdownOp::Begin => if self.shutdown {
                self
            } else {
                ShutdownModel { shutdown: false, pending: self.pending + 1 }
            },
            ShutdownOp::End => if self.pending > 0 {
                ShutdownModel { shutdown: self.shutdown, pending: (self.pending - 1) as nat }
            } else {
                self
            },
        }
    }

    /// The state after a sequence of operations.
    pub open spec fn run(self, ops: Seq<ShutdownOp>) -> ShutdownModel
        decreases ops.len(),
    {
        if ops.len() == 0 {
            self
        } else {
            self.run(ops.drop_last()).step(ops.last())
        }
    }
}

/// The shutdown latch of a channel and the count of its operations in flight.
#[derive(Debug)]
pub struct ShutdownState {
    shutdown: bool,
    pending_count: usize,
}

/// Stands for one operation in flight, from `begin_operation` until it is
/// handed back to `end_operation`.
#[derive(Debug)]
pub struct OperationGuard {
    _private: (),
}

impl View for ShutdownState {
    type V = ShutdownModel;

    closed spec fn view(&self) -> ShutdownModel {
        ShutdownModel { shutdown: self.shutdown, pending: self.pending_count as nat }
    }
}

impl ShutdownState {
    /// A state that is open and idle.
    pub fn new() -> (s: Self)
        ensures
            s@ == (ShutdownModel { shutdown: false, pending: 0 }),
    {
        ShutdownState { shutdown: false, pending_count: 0 }
    }

    /// Signals shutdown. The latch never opens again.
    pub fn shutdown(&mut self)
        ensures
            final(self)@ == old(self)@.step(ShutdownOp::Shutdown),
    {
        self.shutdown = true;
    }

    /// Whether shutdown has been signalled.
    pub fn is_shutdown(&self) -> (b: bool)
        ensures
            b == self@.shutdown,
    {
        self.shutdown
    }

    /// Begins an operation: counts it as in flight, unless shutdown has been
    /// signalled, in which case nothing changes and the call fails with
    /// `Closed`.
    pub fn begin_operation(&mut self) -> (r: Result<OperationGuard>)
        requires
            !old(self)@.shutdown ==> old(self)@.pending < usize::MAX,
        ensures
            final(self)@ == old(self)@.step(ShutdownOp::Begin),
            r is Ok <==> !old(self)@.shutdown,
            r is Err ==> r == Err::<OperationGuard, IpcError>(IpcError::Closed),
    {
        if self.shutdown {
            return Err(IpcError::Closed);
        }
        self.pending_count = self.pending_count + 1;
        Ok(OperationGuard { _private: () })
    }

    /// Ends the operation that `guard` stands for. An idle state stays idle.
    pub fn end_operation(&mut self, guard: OperationGuard)
        ensures
            final(self)@ == old(self)@.step(ShutdownOp::End),
    {
        if self.pending_count > 0 {
            self.pending_count = self.pending_count - 1;
        }
    }

    /// The current number of operations in flight.
    pub fn pending_count(&self) -> (n: usize)
        ensures
            n == self@.pending,
    {
        self.pending_count
    }

    /// One step of waiting for the operations in flight: `Drained` when none
    /// is left, `Timeout` when `waited_ms` has reached the deadline, `Wait`
    /// otherwise. The caller sleeps between two steps.
    pub fn wait_for_drain(&self, waited_ms: u64, timeout_ms: Option<u64>) -> (r: Result<DrainStep>)
        ensures
            drain_outcome(self@.pending, waited_ms, timeout_ms) matches Some(step) ==> r == Ok::<
                DrainStep,
                IpcError,
            >(step),
            drain_outcome(self@.pending, waited_ms, timeout_ms) is None ==> r == Err::<
                DrainStep,
                IpcError,
            >(IpcError::Timeout),
    {
        if self.pending_count == 0 {
            return Ok(DrainStep::Drained);
        }
        match timeout_ms {
            Some(limit) => {
                if waited_ms >= limit {
                    return Err(IpcError::Timeout);
                }
            },
            None => {},
        }
        Ok(DrainStep::Wait)
    }
}

impl Default for ShutdownState {
    fn default() -> (s: Self)
        ensures
            s@ == (ShutdownModel { shutdown: false, pending: 0 }),
    {
        ShutdownState::new()
    }
}

/// Adds graceful shutdown to any channel.
#[derive(Debug)]
pub struct GracefulWrapper<T> {
    inner: T,
    state: ShutdownState,
}

impl<T> GracefulWrapper<T> {
    /// The wrapped channel.
    pub closed spec fn channel(&self) -> T {
        self.inner
    }

    /// The shutdown state of the wrapper.
    pub closed spec fn shutdown_state(&self) -> ShutdownState {
        self.state
    }

    /// Wraps a channel with a state that is open and idle.
    pub fn new(inner: T) -> (w: Self)
        ensures
            w.channel() == inner,
            w.shutdown_state()@ == (ShutdownModel { shutdown: false, pending: 0 }),
    {
        GracefulWrapper { inner, state: ShutdownState::new() }
    }

    /// Wraps a channel with the given shutdown state.
    pub fn with_state(inner: T, state: ShutdownState) -> (w: Self)
        ensures
            w.channel() == inner,
            w.shutdown_state() == state,
    {
        GracefulWrapper { inner, state }
    }

    /// The wrapped channel.
    pub fn inner(&self) -> (r: &T)
        ensures
            *r == self.channel(),
    {
        &self.inner
    }

    /// The wrapped channel, to change it.
    pub fn inner_mut(&mut self) -> (r: &mut T)
        ensures
            *r == old(self).channel(),
            final(self).channel() == *final(r),
            final(self).shutdown_state() == old(self).shutdown_state(),
    {
        &mut self.inner
    }

    /// The shutdown state.
    pub fn state(&self) -> (r: &ShutdownState)
        ensures
            *r == self.shutdown_state(),
    {
        &self.state
    }

    /// Takes the wrapper apart and returns the channel.
    pub fn into_inner(self) -> (r: T)
        ensures
            r == self.channel(),
    {
        self.inner
    }

    /// Begins an operation on the wrapped channel.
    pub fn begin_operation(&mut self) -> (r: Result<OperationGuard>)
        requires
            !old(self).shutdown_state()@.shutdown ==> old(self).shutdown_state()@.pending
                < usize::MAX,
        ensures
            final(self).channel() == old(self).channel(),
            final(self).shutdown_state()@ == old(self).shutdown_state()@.step(ShutdownOp::Begin),
            r is Ok <==> !old(self).shutdown_state()@.shutdown,
            r is Err ==> r == Err::<OperationGuard, IpcError>(IpcError::Closed),
    {
        self.state.begin_operation()
    }

    /// Ends the operation that `guard` stands for.
    pub fn end_operation(&mut self, guard: OperationGuard)
        ensures
            final(self).channel() == old(self).channel(),
            final(self).shutdown_state()@ == old(self).shutdown_state()@.step(ShutdownOp::End),
    {
        self.state.end_operation(guard)
    }
}

impl<T> GracefulChannel for GracefulWrapper<T> {
    open spec fn shutdown_signalled(&self) -> bool {
        self.shutdown_state()@.shutdown
    }

    open spec fn in_flight(&self) -> nat {
        self.shutdown_state()@.pending
    }

    fn shutdown(&mut self) {
        self.state.shutdown();
    }

    fn is_shutdown(&self) -> (b: bool) {
        self.state.is_shutdown()
    }

    fn drain(&mut self) -> (r: Result<DrainStep>) {
        self.state.wait_for_drain(0, None)
    }

    fn shutdown_timeout(&mut self, waited_ms: u64, timeout_ms: u64) -> (r: Result<DrainStep>) {
        self.state.shutdown();
        self.state.wait_for_drain(waited_ms, Some(timeout_ms))
    }
}

/// The latch is final: whatever operations follow a shutdown, the state stays
/// shut down, so that every later `begin_operation` fails with `Closed` and
/// counts nothing.
pub proof fn lemma_shutdown_is_final(state: ShutdownModel, ops: Seq<ShutdownOp>)
    requires
        state.shutdown,
    ensures
        state.run(ops).shutdown,
        state.run(ops).step(ShutdownOp::Begin) == state.run(ops),
        state.run(ops).pending <= state.pending,
    decreases ops.len(),
{
    if ops.len() > 0 {
        lemma_shutdown_is_final(state, ops.drop_last());
    }
}

/// Once every operation in flight has ended, a drain completes at its first
/// step, with or without a deadline.
pub proof fn lemma_idle_drains_at_once(state: ShutdownModel, waited_ms: u64,
    timeout_ms: Option<u64>)
    requires
        state.pending == 0,
    ensures
        drain_outcome(state.pending, waited_ms, timeout_ms) == Some(DrainStep::Drained),
{
}

/// Ending as many operations as are in flight leaves the state idle.
pub proof fn lemma_guards_returned(state: ShutdownModel, n: nat)
    requires
        n >= state.pending,
    ensures
        state.run(Seq::new(n, |i: int| ShutdownOp::End)).pending == 0,
        state.run(Seq::new(n, |i: int| ShutdownOp::End)).shutdown == state.shutdown,
    decreases n,
{
    let ops = Seq::new(n, |i: int| ShutdownOp::End);
    if n > 0 {
        let fewer = Seq::new((n - 1) as nat, |i: int| ShutdownOp::End);
        assert(ops.drop_last() =~= fewer);
        if state.pending == n {
            lemma_ends_count(state, (n - 1) as nat);
        } else {
            lemma_guards_returned(state, (n - 1) as nat);
        }
    }
}

/// Ending `n` operations of a state with at least `n` in flight leaves the
/// others in flight.
proof fn lemma_ends_count(state: ShutdownModel, n: nat)
    requires
        n <= state.pending,
    ensures
        state.run(Seq::new(n, |i: int| ShutdownOp::End)).pending == state.pending - n,
        state.run(Seq::new(n, |i: int| ShutdownOp::End)).shutdown == state.shutdown,
    decreases n,
{
    let ops = Seq::new(n, |i: int| ShutdownOp::End);
    if n > 0 {
        let fewer = Seq::new((n - 1) as nat, |i: int| ShutdownOp::End);
        assert(ops.drop_last() =~= fewer);
        lemma_ends_count(state, (n - 1) as nat);
    }
}

/// A framed channel with graceful shutdown: once shutdown is signalled,
/// every operation fails with `Closed` and touches nothing.
///
/// An operation on the channel begins and ends within one call, so that the
/// count of operations in flight is the same before and after it.
#[derive(Debug)]
pub struct GracefulIpcChannel<S> {
    inner: IpcChannel<S>,
    state: ShutdownState,
}

impl<S: ByteStream> GracefulIpcChannel<S> {
    /// The channel under the wrapper.
    pub closed spec fn channel(&self) -> IpcChannel<S> {
        self.inner
    }

    /// The shutdown state of the wrapper.
    pub closed spec fn shutdown_state(&self) -> ShutdownState {
        self.state
    }

    /// Wraps a channel with a state that is open and idle.
    pub fn new(channel: IpcChannel<S>) -> (c: Self)
        ensures
            c.channel() == channel,
            c.shutdown_state()@ == (ShutdownModel { shutdown: false, pending: 0 }),
    {
        GracefulIpcChannel { inner: channel, state: ShutdownState::new() }
    }

    /// Wraps a channel with the given shutdown state.
    pub fn with_state(channel: IpcChannel<S>, state: ShutdownState) -> (c: Self)
        ensures
            c.channel() == channel,
            c.shutdown_state() == state,
    {
        GracefulIpcChannel { inner: channel, state }
    }

    /// The shutdown state.
    pub fn state(&self) -> (r: &ShutdownState)
        ensures
            *r == self.shutdown_state(),
    {
        &self.state
    }

    /// The channel under the wrapper.
    pub fn inner(&self) -> (r: &IpcChannel<S>)
        ensures
            *r == self.channel(),
    {
        &self.inner
    }

    /// The channel under the wrapper, to change it.
    pub fn inner_mut(&mut self) -> (r: &mut IpcChannel<S>)
        ensures
            *r == old(self).channel(),
            final(self).channel() == *final(r),
            final(self).shutdown_state() == old(self).shutdown_state(),
    {
        &mut self.inner
    }

    /// Sends raw bytes as one frame, unless shutdown has been signalled.
    pub fn send_bytes(&mut self, data: &[u8]) -> (r: Result<()>)
        ensures
            final(self).shutdown_state() == old(self).shutdown_state(),
            final(self).channel().transport().reliable() == old(
                self,
            ).channel().transport().reliable(),
            old(self).shutdown_state()@.shutdown ==> r == Err::<(), IpcError>(IpcError::Closed)
                && final(self).channel() == old(self).channel(),
            !old(self).shutdown_state()@.shutdown ==> final(self).channel().transport().incoming()
                == old(self).channel().transport().incoming() && frame_sent(
                data@,
                old(self).channel().transport().reliable(),
                old(self).channel().transport().written(),
                final(self).channel().transport().written(),
                r,
            ),
    {
        if self.state.is_shutdown() {
            return Err(IpcError::Closed);
        }
        self.inner.send_bytes(data)
    }

    /// Receives the payload of the next frame, unless shutdown has been
    /// signalled.
    pub fn recv_bytes(&mut self) -> (r: Result<Vec<u8>>)
        ensures
            final(self).shutdown_state() == old(self).shutdown_state(),
            final(self).channel().transport().reliable() == old(
                self,
            ).channel().transport().reliable(),
            old(self).shutdown_state()@.shutdown ==> r == Err::<Vec<u8>, IpcError>(IpcError::Closed)
                && final(self).channel() == old(self).channel(),
            !old(self).shutdown_state()@.shutdown ==> final(self).channel().transport().written()
                == old(self).channel().transport().written() && frame_received(
                old(self).channel().transport().incoming(),
                old(self).channel().transport().reliable(),
                final(self).channel().transport().incoming(),
                r,
            ),
    {
        if self.state.is_shutdown() {
            return Err(IpcError::Closed);
        }
        self.inner.recv_bytes()
    }

    /// Sends a JSON value as one frame, unless shutdown has been signalled.
    pub fn send(&mut self, msg: &serde_json::Value) -> (r: Result<()>)
        ensures
            final(self).shutdown_state() == old(self).shutdown_state(),
            final(self).channel().transport().reliable() == old(
                self,
            ).channel().transport().reliable(),
            old(self).shutdown_state()@.shutdown ==> r == Err::<(), IpcError>(IpcError::Closed)
                && final(self).channel() == old(self).channel(),
            !old(self).shutdown_state()@.shutdown ==> final(self).channel().transport().incoming()
                == old(self).channel().transport().incoming() && frame_sent(
                json_encoding(*msg),
                old(self).channel().transport().reliable(),
                old(self).channel().transport().written(),
                final(self).channel().transport().written(),
                r,
            ),
    {
        if self.state.is_shutdown() {
            return Err(IpcError::Closed);
        }
        self.inner.send(msg)
    }

    /// Receives a JSON value from the next frame, unless shutdown has been
    /// signalled.
    pub fn recv(&mut self) -> (r: Result<serde_json::Value>)
        ensures
            final(self).shutdown_state() == old(self).shutdown_state(),
            final(self).channel().transport().reliable() == old(
                self,
            ).channel().transport().reliable(),
            old(self).shutdown_state()@.shutdown ==> r == Err::<serde_json::Value, IpcError>(IpcError::Closed)
                && final(self).channel() == old(self).channel(),
            !old(self).shutdown_state()@.shutdown ==> final(self).channel().transport().written()
                == old(self).channel().transport().written() && value_received(
                old(self).channel().transport().incoming(),
                old(self).channel().transport().reliable(),
                final(self).channel().transport().incoming(),
                r,
            ),
    {
        if self.state.is_shutdown() {
            return Err(IpcError::Closed);
        }
        self.inner.recv()
    }
}

impl<S: ByteStream> GracefulChannel for GracefulIpcChannel<S> {
    open spec fn shutdown_signalled(&self) -> bool {
        self.shutdown_state()@.shutdown
    }

    open spec fn in_flight(&self) -> nat {
        self.shutdown_state()@.pending
    }

    fn shutdown(&mut self) {
        self.state.shutdown();
    }

    fn is_shutdown(&self) -> (b: bool) {
        self.state.is_shutdown()
    }

    fn drain(&mut self) -> (r: Result<DrainStep>) {
        self.state.wait_for_drain(0, None)
    }

    fn shutdown_timeout(&mut self, waited_ms: u64, timeout_ms: u64) -> (r: Result<DrainStep>) {
        self.state.shutdown();
        self.state.wait_for_drain(waited_ms, Some(timeout_ms))
    }
}

/// A named pipe with graceful shutdown: the byte stream of the pipe, which
/// fails every read and write with `BrokenPipe` once shutdown is signalled.
#[derive(Debug)]
pub struct GracefulNamedPipe<S> {
    inner: S,
    state: ShutdownState,
}

impl<S: ByteStream> GracefulNamedPipe<S> {
    /// The pipe under the wrapper.
    pub closed spec fn pipe(&self) -> S {
        self.inner
    }

    /// The shutdown state of the wrapper.
    pub closed spec fn shutdown_state(&self) -> ShutdownState {
        self.state
    }

    /// Wraps a pipe with a state that is open and idle.
    pub fn new(pipe: S) -> (p: Self)
        ensures
            p.pipe() == pipe,
            p.shutdown_state()@ == (ShutdownModel { shutdown: false, pending: 0 }),
    {
        GracefulNamedPipe { inner: pipe, state: ShutdownState::new() }
    }

    /// Wraps a pipe with the given shutdown state.
    pub fn with_state(pipe: S, state: ShutdownState) -> (p: Self)
        ensures
            p.pipe() == pipe,
            p.shutdown_state() == state,
    {
        GracefulNamedPipe { inner: pipe, state }
    }

    /// The shutdown state.
    pub fn state(&self) -> (r: &ShutdownState)
        ensures
            *r == self.shutdown_state(),
    {
        &self.state
    }

    /// The pipe under the wrapper.
    pub fn inner(&self) -> (r: &S)
        ensures
            *r == self.pipe(),
    {
        &self.inner
    }

    /// The pipe under the wrapper, to change it.
    pub fn inner_mut(&mut self) -> (r: &mut S)
        ensures
            *r == old(self).pipe(),
            final(self).pipe() == *final(r),
            final(self).shutdown_state() == old(self).shutdown_state(),
    {
        &mut self.inner
    }
}

impl<S: ByteStream> ByteStream for GracefulNamedPipe<S> {
    open spec fn incoming(&self) -> Wire {
        self.pipe().incoming()
    }

    open spec fn written(&self) -> Wire {
        self.pipe().written()
    }

    open spec fn reliable(&self) -> bool {
        self.pipe().reliable() && !self.shutdown_state()@.shutdown
    }

    fn read(&mut self, buf: &mut Vec<u8>, limit: usize) -> (r: core::result::Result<
        usize,
        IoErrorKind,
    >)
        ensures
            final(self).shutdown_state() == old(self).shutdown_state(),
            old(self).shutdown_state()@.shutdown ==> r == Err::<usize, IoErrorKind>(
                IoErrorKind::BrokenPipe,
            ),
    {
        if self.state.is_shutdown() {
            return Err(IoErrorKind::BrokenPipe);
        }
        self.inner.read(buf, limit)
    }

    fn write(&mut self, data: &[u8]) -> (r: core::result::Result<usize, IoErrorKind>)
        ensures
            final(self).shutdown_state() == old(self).shutdown_state(),
            old(self).shutdown_state()@.shutdown ==> r == Err::<usize, IoErrorKind>(
                IoErrorKind::BrokenPipe,
            ),
    {
        if self.state.is_shutdown() {
            return Err(IoErrorKind::BrokenPipe);
        }
        self.inner.write(data)
    }
}

impl<S: ByteStream> GracefulChannel for GracefulNamedPipe<S> {
    open spec fn shutdown_signalled(&self) -> bool {
        self.shutdown_state()@.shutdown
    }

    open spec fn in_flight(&self) -> nat {
        self.shutdown_state()@.pending
    }

    fn shutdown(&mut self) {
        self.state.shutdown();
    }

    fn is_shutdown(&self) -> (b: bool) {
        self.state.is_shutdown()
    }

    fn drain(&mut self) -> (r: Result<DrainStep>) {
        self.state.wait_for_drain(0, None)
    }

    fn shutdown_timeout(&mut self, waited_ms: u64, timeout_ms: u64) -> (r: Result<DrainStep>) {
        self.state.shutdown();
        self.state.wait_for_drain(waited_ms, Some(timeout_ms))
    }
}

} // verus!

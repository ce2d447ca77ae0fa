use ipckit::channel::{ByteStream, IpcChannel, MemoryStream};
use ipckit::error::{IoErrorKind, IpcError};
use ipckit::graceful::{
    DrainStep, GracefulChannel, GracefulIpcChannel, GracefulNamedPipe, GracefulWrapper,
    ShutdownState,
};

#[test]
fn test_shutdown_state() {
    let mut state = ShutdownState::new();

    assert!(!state.is_shutdown());
    assert_eq!(state.pending_count(), 0);

    state.shutdown();

    assert!(state.is_shutdown());
}

#[test]
fn test_operation_guard() {
    let mut state = ShutdownState::new();

    {
        let guard = state.begin_operation().unwrap();
        assert_eq!(state.pending_count(), 1);

        {
            let guard2 = state.begin_operation().unwrap();
            assert_eq!(state.pending_count(), 2);
            state.end_operation(guard2);
        }

        assert_eq!(state.pending_count(), 1);
        state.end_operation(guard);
    }

    assert_eq!(state.pending_count(), 0);
}

#[test]
fn test_operation_after_shutdown() {
    let mut state = ShutdownState::new();

    state.shutdown();

    let result = state.begin_operation();
    assert!(result.is_err());
}

#[test]
fn test_graceful_wrapper() {
    let mut wrapper = GracefulWrapper::new(42);

    assert!(!wrapper.is_shutdown());
    assert_eq!(*wrapper.inner(), 42);

    wrapper.shutdown();

    assert!(wrapper.is_shutdown());
}

#[test]
fn shutdown_is_final_for_every_later_operation() {
    let mut state = ShutdownState::new();
    let guard = state.begin_operation().unwrap();
    state.shutdown();
    state.shutdown();
    for _ in 0..5 {
        assert!(matches!(state.begin_operation(), Err(IpcError::Closed)));
        assert_eq!(state.pending_count(), 1);
    }
    assert!(state.is_shutdown());
    state.end_operation(guard);
    assert_eq!(state.pending_count(), 0);
    assert!(state.is_shutdown());
}

#[test]
fn drain_steps_follow_pending_and_deadline() {
    let mut state = ShutdownState::new();
    assert!(matches!(state.wait_for_drain(0, None), Ok(DrainStep::Drained)));
    assert!(matches!(state.wait_for_drain(1000, Some(10)), Ok(DrainStep::Drained)));

    let guard = state.begin_operation().unwrap();
    assert!(matches!(state.wait_for_drain(0, None), Ok(DrainStep::Wait)));
    assert!(matches!(state.wait_for_drain(1_000_000, None), Ok(DrainStep::Wait)));
    assert!(matches!(state.wait_for_drain(49, Some(50)), Ok(DrainStep::Wait)));
    assert!(matches!(state.wait_for_drain(50, Some(50)), Err(IpcError::Timeout)));
    assert!(matches!(state.wait_for_drain(51, Some(50)), Err(IpcError::Timeout)));

    state.end_operation(guard);
    assert!(matches!(state.wait_for_drain(51, Some(50)), Ok(DrainStep::Drained)));
}

#[test]
fn ending_an_operation_of_an_idle_state_leaves_it_idle() {
    let mut first = ShutdownState::new();
    let mut second = ShutdownState::new();
    let guard = first.begin_operation().unwrap();
    second.end_operation(guard);
    assert_eq!(second.pending_count(), 0);
    assert_eq!(first.pending_count(), 1);
}

#[test]
fn wrapper_keeps_channel_and_counts_operations() {
    let mut wrapper = GracefulWrapper::with_state(String::from("pipe"), ShutdownState::new());
    assert_eq!(wrapper.inner().as_str(), "pipe");
    wrapper.inner_mut().push_str("-a");
    assert_eq!(wrapper.inner().as_str(), "pipe-a");

    let guard = wrapper.begin_operation().unwrap();
    assert_eq!(wrapper.state().pending_count(), 1);
    assert!(matches!(wrapper.drain(), Ok(DrainStep::Wait)));
    assert!(matches!(wrapper.shutdown_timeout(5, 5), Err(IpcError::Timeout)));
    assert!(wrapper.is_shutdown());
    assert!(matches!(wrapper.begin_operation(), Err(IpcError::Closed)));
    wrapper.end_operation(guard);
    assert!(matches!(wrapper.shutdown_timeout(5, 5), Ok(DrainStep::Drained)));
    assert_eq!(wrapper.into_inner(), "pipe-a");
}

#[test]
fn graceful_channel_refuses_after_shutdown() {
    let mut frame = vec![11u8, 0, 0, 0];
    frame.extend_from_slice(b"Hello, IPC!");
    let stream = MemoryStream::with_input(frame.clone(), 3);
    let mut channel = GracefulIpcChannel::new(IpcChannel::new(stream));

    let data = channel.recv_bytes().unwrap();
    assert_eq!(data, b"Hello, IPC!");
    channel.send_bytes(b"Hello, IPC!").unwrap();
    assert_eq!(channel.inner().stream().output(), &frame);

    channel.shutdown();
    assert!(channel.is_shutdown());

    assert!(matches!(channel.recv_bytes(), Err(IpcError::Closed)));
    assert!(matches!(channel.send_bytes(b"late"), Err(IpcError::Closed)));
    assert!(matches!(channel.send(&serde_json::Value::from(1)), Err(IpcError::Closed)));
    assert!(matches!(channel.recv(), Err(IpcError::Closed)));
    assert_eq!(channel.inner().stream().output(), &frame);
}

#[test]
fn graceful_pipe_breaks_after_shutdown() {
    let mut pipe = GracefulNamedPipe::new(MemoryStream::with_input(b"Hello!".to_vec(), 64));

    let mut buf = Vec::new();
    assert_eq!(pipe.read(&mut buf, 32), Ok(6));
    assert_eq!(buf, b"Hello!");
    assert_eq!(pipe.write(b"ok"), Ok(2));

    pipe.shutdown();
    assert!(pipe.is_shutdown());

    // Operations after shutdown fail and touch nothing.
    assert_eq!(pipe.write(b"test"), Err(IoErrorKind::BrokenPipe));
    assert_eq!(pipe.read(&mut buf, 32), Err(IoErrorKind::BrokenPipe));
    assert_eq!(buf, b"Hello!");
    assert_eq!(pipe.inner().output(), &b"ok".to_vec());
    assert!(pipe.state().is_shutdown());

    // A channel over the pipe passes the error on.
    let mut channel = IpcChannel::new(pipe);
    assert!(matches!(channel.send_bytes(b"x"), Err(IpcError::Io(IoErrorKind::BrokenPipe))));
    assert!(matches!(channel.recv_bytes(), Err(IpcError::Io(IoErrorKind::BrokenPipe))));
}

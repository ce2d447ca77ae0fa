//! Verified core of a cross-platform inter-process communication toolkit.
//!
//! The crate holds the rules of the toolkit as state machines and functions
//! on plain values, each with a contract over a mathematical model of the
//! data it touches:
//!
//! - [`error`]: the closed set of failure kinds.
//! - [`graceful`]: the shutdown latch with its count of operations in
//!   flight, and the wrappers that gate a channel with it.
//! - [`channel`]: length-prefixed frames over any blocking byte stream.
//! - [`thread_channel`]: the queue between producers and consumers, and
//!   the endpoints that threads share.
//! - [`event_stream`]: events, filters, and the bus with its bounded history
//!   and its bounded buffer for every subscriber.
//! - [`task_manager`]: the task registry and the life cycle of a task.
//! - [`socket_server`]: the messages of the local-socket protocol, the loop
//!   that serves a connection, and the client.
//! - [`cli_bridge`] and [`api_server`]: progress read from the output of a
//!   command-line tool, and route patterns.
//!
//! But for the cancellation token and the thread endpoints, which threads
//! share, a value of this crate belongs to one caller at a time: an
//! operation takes `&mut self` and runs to its end without waiting. Where the toolkit waits
//! (for a drain, for room in a queue, for the next event) the operation
//! here is one step that says whether to wait, and the caller sleeps and
//! asks again. The clock is the caller's, too: times are arguments, in
//! milliseconds. To share a value between threads, the caller puts it behind
//! a lock.
//!
//! [`json`], [`encoding`], [`captures`] and [`thread_channel::endpoints`]
//! hold the calls into `serde_json`, `base64`, `regex` and
//! `crossbeam_channel`; their contracts are assumed.

pub mod api_server;
pub mod captures;
pub mod channel;
pub mod cli_bridge;
pub mod encoding;
pub mod error;
pub mod event_stream;
pub mod graceful;
pub mod json;
pub mod pattern;
pub mod socket_server;
pub mod task_manager;
pub mod text;
pub mod thread_channel;

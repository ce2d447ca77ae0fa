//! The closed set of failure kinds shared by every component.

use crate::text::{concat, decimal, decimal_string};
use vstd::prelude::*;

verus! {

/// The cause carried by an I/O failure, as far as the toolkit tells causes apart.
#[derive(Debug, Clone, Copy, PartialEq, Eq, Structural)]
pub enum IoErrorKind {
    /// The endpoint does not exist.
    NotFound,
    /// The caller may not use the endpoint.
    PermissionDenied,
    /// The endpoint exists already.
    AlreadyExists,
    /// The operation would have to wait.
    WouldBlock,
    /// A deadline of the operating system passed.
    TimedOut,
    /// The stream ended before the expected bytes arrived.
    UnexpectedEof,
    /// The stream accepted no further byte.
    WriteZero,
    /// The peer is gone.
    BrokenPipe,
    /// Any other cause.
    Other,
}

/// A failure of an IPC operation.
#[derive(Debug, Clone)]
pub enum IpcError {
    /// I/O error from the underlying system.
    Io(IoErrorKind),
    /// The pipe or channel is already closed.
    Closed,
    /// The pipe or channel name is invalid.
    InvalidName(String),
    /// The resource already exists.
    AlreadyExists(String),
    /// The resource was not found.
    NotFound(String),
    /// Permission denied.
    PermissionDenied(String),
    /// Timeout occurred.
    Timeout,
    /// A message is larger than the bound that the receiver accepts.
    BufferTooSmall { needed: usize, got: usize },
    /// A value could not be encoded.
    Serialization(String),
    /// Bytes could not be decoded into a value.
    Deserialization(String),
    /// Platform-specific error.
    Platform(String),
    /// The operation is not legal in the current state.
    InvalidState(String),
    /// A non-blocking operation could not complete at once.
    WouldBlock,
    /// Other error.
    Other(String),
}

impl IoErrorKind {
    /// The words that describe the cause.
    pub open spec fn text(self) -> Seq<char> {
        match self {
            IoErrorKind::NotFound => "entity not found"@,
            IoErrorKind::PermissionDenied => "permission denied"@,
            IoErrorKind::AlreadyExists => "entity already exists"@,
            IoErrorKind::WouldBlock => "operation would block"@,
            IoErrorKind::TimedOut => "timed out"@,
            IoErrorKind::UnexpectedEof => "unexpected end of file"@,
            IoErrorKind::WriteZero => "write zero"@,
            IoErrorKind::BrokenPipe => "broken pipe"@,
            IoErrorKind::Other => "other error"@,
        }
    }

    /// The words that describe the cause.
    pub fn describe(&self) -> (s: &'static str)
        ensures
            s@ == self.text(),
    {
        match self {
            IoErrorKind::NotFound => "entity not found",
            IoErrorKind::PermissionDenied => "permission denied",
            IoErrorKind::AlreadyExists => "entity already exists",
            IoErrorKind::WouldBlock => "operation would block",
            IoErrorKind::TimedOut => "timed out",
            IoErrorKind::UnexpectedEof => "unexpected end of file",
            IoErrorKind::WriteZero => "write zero",
            IoErrorKind::BrokenPipe => "broken pipe",
            IoErrorKind::Other => "other error",
        }
    }
}

/// Result type of the toolkit's operations.
pub type Result<T> = core::result::Result<T, IpcError>;

impl IpcError {
    /// An I/O error with the given cause.
    pub fn io(kind: IoErrorKind) -> (e: Self)
        ensures
            e == IpcError::Io(kind),
    {
        IpcError::Io(kind)
    }

    /// A serialization error with the given text.
    pub fn serialization(msg: String) -> (e: Self)
        ensures
            e == IpcError::Serialization(msg),
    {
        IpcError::Serialization(msg)
    }

    /// A deserialization error with the given text.
    pub fn deserialization(msg: String) -> (e: Self)
        ensures
            e == IpcError::Deserialization(msg),
    {
        IpcError::Deserialization(msg)
    }

    /// The text that presents the error to a reader.
    pub open spec fn message_text(self) -> Seq<char> {
        match self {
            IpcError::Io(kind) => "I/O error: "@ + kind.text(),
            IpcError::Closed => "Channel closed"@,
            IpcError::InvalidName(s) => "Invalid name: "@ + s@,
            IpcError::AlreadyExists(s) => "Resource already exists: "@ + s@,
            IpcError::NotFound(s) => "Resource not found: "@ + s@,
            IpcError::PermissionDenied(s) => "Permission denied: "@ + s@,
            IpcError::Timeout => "Operation timed out"@,
            IpcError::BufferTooSmall { needed, got } => "Buffer too small: need "@ + decimal(
                needed as nat,
            ) + ", got "@ + decimal(got as nat),
            IpcError::Serialization(s) => "Serialization error: "@ + s@,
            IpcError::Deserialization(s) => "Deserialization error: "@ + s@,
            IpcError::Platform(s) => "Platform error: "@ + s@,
            IpcError::InvalidState(s) => "Invalid state: "@ + s@,
            IpcError::WouldBlock => "Operation would block"@,
            IpcError::Other(s) => s@,
        }
    }

    /// The text that presents the error to a reader.
    pub fn message(&self) -> (s: String)
        ensures
            s@ == self.message_text(),
    {
        match self {
            IpcError::Io(kind) => concat("I/O error: ", kind.describe()),
            IpcError::Closed => String::from_str("Channel closed"),
            IpcError::InvalidName(s) => concat("Invalid name: ", s.as_str()),
            IpcError::AlreadyExists(s) => concat("Resource already exists: ", s.as_str()),
            IpcError::NotFound(s) => concat("Resource not found: ", s.as_str()),
            IpcError::PermissionDenied(s) => concat("Permission denied: ", s.as_str()),
            IpcError::Timeout => String::from_str("Operation timed out"),
            IpcError::BufferTooSmall { needed, got } => {
                let mut text = concat(
                    "Buffer too small: need ",
                    decimal_string(*needed as u64).as_str(),
                );
                text.append(", got ");
                text.append(decimal_string(*got as u64).as_str());
                text
            },
            IpcError::Serialization(s) => concat("Serialization error: ", s.as_str()),
            IpcError::Deserialization(s) => concat("Deserialization error: ", s.as_str()),
            IpcError::Platform(s) => concat("Platform error: ", s.as_str()),
            IpcError::InvalidState(s) => concat("Invalid state: ", s.as_str()),
            IpcError::WouldBlock => String::from_str("Operation would block"),
            IpcError::Other(s) => s.clone(),
        }
    }

    /// Whether the error means "retry later".
    pub open spec fn would_block(self) -> bool {
        self == IpcError::WouldBlock || self == IpcError::Io(IoErrorKind::WouldBlock)
    }

    /// Whether the error means that a deadline passed.
    pub open spec fn timed_out(self) -> bool {
        self == IpcError::Timeout || self == IpcError::Io(IoErrorKind::TimedOut)
    }

    /// Check if this is a "would block" error.
    pub fn is_would_block(&self) -> (b: bool)
        ensures
            b == self.would_block(),
    {
        match self {
            IpcError::WouldBlock => true,
            IpcError::Io(kind) => *kind == IoErrorKind::WouldBlock,
            _ => false,
        }
    }

    /// Check if this is a timeout error.
    pub fn is_timeout(&self) -> (b: bool)
        ensures
            b == self.timed_out(),
    {
        match self {
            IpcError::Timeout => true,
            IpcError::Io(kind) => *kind == IoErrorKind::TimedOut,
            _ => false,
        }
    }
}

} // verus!

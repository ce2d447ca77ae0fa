//! Progress of a command-line tool, read from the lines that it prints.

use crate::cli_bridge::parsers::{BuiltinParser, ParserKind};
use vstd::prelude::*;

pub mod parsers;

verus! {

/// Progress information parsed from output.
#[derive(Debug)]
pub struct ProgressInfo {
    /// Current progress value.
    pub current: u64,
    /// Total value.
    pub total: u64,
    /// Optional message.
    pub message: Option<String>,
}

/// The share of `current` in `total` in hundredths, rounded down and at most
/// 100; zero where `total` is zero.
pub open spec fn percentage_of(current: u64, total: u64) -> u8 {
    if total == 0 {
        0
    } else if (current * 100) / (total as int) >= 100 {
        100
    } else {
        ((current * 100) / (total as int)) as u8
    }
}

impl ProgressInfo {
    /// Create new progress info.
    pub fn new(current: u64, total: u64) -> (info: Self)
        ensures
            info.current == current,
            info.total == total,
            info.message is None,
    {
        ProgressInfo { current, total, message: None }
    }

    /// Create progress info with a message.
    pub fn with_message(current: u64, total: u64, message: &str) -> (info: Self)
        ensures
            info.current == current,
            info.total == total,
            info.message is Some,
            info.message->Some_0@ == message@,
    {
        ProgressInfo { current, total, message: Some(String::from_str(message)) }
    }

    /// Get the progress percentage (0-100).
    pub fn percentage(&self) -> (p: u8)
        ensures
            p == percentage_of(self.current, self.total),
            p <= 100,
    {
        if self.total == 0 {
            0
        } else {
            let share: u128 = (self.current as u128 * 100) / (self.total as u128);
            if share >= 100 {
                100
            } else {
                share as u8
            }
        }
    }
}

/// The mathematical model of progress information.
pub struct ProgressView {
    /// Current progress value.
    pub current: u64,
    /// Total value.
    pub total: u64,
    /// Optional message.
    pub message: Option<Seq<char>>,
}

impl View for ProgressInfo {
    type V = ProgressView;

    open spec fn view(&self) -> ProgressView {
        ProgressView {
            current: self.current,
            total: self.total,
            message: match self.message {
                Some(text) => Some(text@),
                None => None,
            },
        }
    }
}

/// Reads progress from a line of output.
pub trait ProgressParser {
    /// The progress that the parser reads from a line.
    spec fn reads(&self, line: Seq<char>) -> Option<ProgressView>;

    /// Parse a line of output and extract the progress that it reports.
    fn parse(&self, line: &str) -> (r: Option<ProgressInfo>)
        ensures
            match r {
                Some(info) => self.reads(line@) == Some(info@),
                None => self.reads(line@) is None,
            },
    ;
}

/// CLI bridge configuration. Times are in milliseconds.
#[derive(Debug)]
pub struct CliBridgeConfig {
    /// API server URL or socket path.
    pub server_url: String,
    /// Whether the task registers itself when the bridge is made.
    pub auto_register: bool,
    /// Capture stdout.
    pub capture_stdout: bool,
    /// Capture stderr.
    pub capture_stderr: bool,
    /// The parser that reads progress from the output.
    pub progress_parser: Option<ParserKind>,
    /// Connection timeout.
    pub connect_timeout: u64,
    /// Retry count for failed connections.
    pub retry_count: u32,
    /// Retry delay.
    pub retry_delay: u64,
}

impl CliBridgeConfig {
    /// Create a new configuration with a custom server URL.
    pub fn with_server(url: &str) -> (c: Self)
        ensures
            c.server_url@ == url@,
            c.auto_register,
            c.capture_stdout,
            c.capture_stderr,
            c.progress_parser is None,
            c.connect_timeout == 5000,
            c.retry_count == 3,
            c.retry_delay == 500,
    {
        CliBridgeConfig {
            server_url: String::from_str(url),
            auto_register: true,
            capture_stdout: true,
            capture_stderr: true,
            progress_parser: None,
            connect_timeout: 5000,
            retry_count: 3,
            retry_delay: 500,
        }
    }

    /// Set the progress parser.
    pub fn progress_parser<P: BuiltinParser>(self, parser: P) -> (c: Self)
        ensures
            c.progress_parser is Some,
            forall|line: Seq<char>| #[trigger]
                c.progress_parser->Some_0.reads(line) == parser.reads(line),
            c.server_url == self.server_url,
            c.auto_register == self.auto_register,
            c.capture_stdout == self.capture_stdout,
            c.capture_stderr == self.capture_stderr,
            c.connect_timeout == self.connect_timeout,
            c.retry_count == self.retry_count,
            c.retry_delay == self.retry_delay,
    {
        let kind = parser.kind();
        CliBridgeConfig {
            server_url: self.server_url,
            auto_register: self.auto_register,
            capture_stdout: self.capture_stdout,
            capture_stderr: self.capture_stderr,
            progress_parser: Some(kind),
            connect_timeout: self.connect_timeout,
            retry_count: self.retry_count,
            retry_delay: self.retry_delay,
        }
    }

    /// Disable auto-registration.
    pub fn no_auto_register(self) -> (c: Self)
        ensures
            !c.auto_register,
            c.server_url == self.server_url,
            c.capture_stdout == self.capture_stdout,
            c.capture_stderr == self.capture_stderr,
            c.progress_parser == self.progress_parser,
            c.connect_timeout == self.connect_timeout,
            c.retry_count == self.retry_count,
            c.retry_delay == self.retry_delay,
    {
        CliBridgeConfig {
            server_url: self.server_url,
            auto_register: false,
            capture_stdout: self.capture_stdout,
            capture_stderr: self.capture_stderr,
            progress_parser: self.progress_parser,
            connect_timeout: self.connect_timeout,
            retry_count: self.retry_count,
            retry_delay: self.retry_delay,
        }
    }
}

impl Default for CliBridgeConfig {
    fn default() -> (c: Self)
        ensures
            c.server_url@ == crate::socket_server::FALLBACK_SOCKET_PATH@,
            c.auto_register,
            c.capture_stdout,
            c.capture_stderr,
            c.progress_parser is None,
            c.connect_timeout == 5000,
            c.retry_count == 3,
            c.retry_delay == 500,
    {
        CliBridgeConfig::with_server(crate::socket_server::FALLBACK_SOCKET_PATH)
    }
}

/// Output type for wrapped writers.
#[derive(Debug, Clone, Copy, PartialEq, Eq, Structural)]
pub enum OutputType {
    /// Standard output.
    Stdout,
    /// Standard error.
    Stderr,
}

/// Output from a wrapped command.
#[derive(Debug)]
pub struct CommandOutput {
    /// Exit code.
    pub exit_code: i32,
    /// Captured stdout.
    pub stdout: String,
    /// Captured stderr.
    pub stderr: String,
    /// How long the command ran, in milliseconds.
    pub duration: u64,
}

} // verus!

use ipckit::error::{IoErrorKind, IpcError};
use ipckit::text::{chars_of, decimal_string, find_from, matches_at, parse_decimal, str_eq};

#[test]
fn would_block_and_timeout_are_told_apart() {
    assert!(IpcError::WouldBlock.is_would_block());
    assert!(IpcError::io(IoErrorKind::WouldBlock).is_would_block());
    assert!(!IpcError::io(IoErrorKind::TimedOut).is_would_block());
    assert!(!IpcError::Timeout.is_would_block());
    assert!(!IpcError::Closed.is_would_block());

    assert!(IpcError::Timeout.is_timeout());
    assert!(IpcError::io(IoErrorKind::TimedOut).is_timeout());
    assert!(!IpcError::io(IoErrorKind::WouldBlock).is_timeout());
    assert!(!IpcError::WouldBlock.is_timeout());
    assert!(!IpcError::Other("timeout".to_string()).is_timeout());
}

#[test]
fn constructors_make_the_named_kinds() {
    assert!(matches!(IpcError::io(IoErrorKind::BrokenPipe), IpcError::Io(IoErrorKind::BrokenPipe)));
    assert!(matches!(IpcError::serialization("bad".to_string()), IpcError::Serialization(s) if s == "bad"));
    assert!(matches!(IpcError::deserialization("worse".to_string()), IpcError::Deserialization(s) if s == "worse"));
}

#[test]
fn every_kind_has_its_message() {
    assert_eq!(IpcError::Io(IoErrorKind::UnexpectedEof).message(), "I/O error: unexpected end of file");
    assert_eq!(IpcError::Io(IoErrorKind::NotFound).message(), "I/O error: entity not found");
    assert_eq!(IpcError::Io(IoErrorKind::PermissionDenied).message(), "I/O error: permission denied");
    assert_eq!(IpcError::Io(IoErrorKind::AlreadyExists).message(), "I/O error: entity already exists");
    assert_eq!(IpcError::Io(IoErrorKind::WouldBlock).message(), "I/O error: operation would block");
    assert_eq!(IpcError::Io(IoErrorKind::TimedOut).message(), "I/O error: timed out");
    assert_eq!(IpcError::Io(IoErrorKind::WriteZero).message(), "I/O error: write zero");
    assert_eq!(IpcError::Io(IoErrorKind::BrokenPipe).message(), "I/O error: broken pipe");
    assert_eq!(IpcError::Io(IoErrorKind::Other).message(), "I/O error: other error");
    assert_eq!(IpcError::Closed.message(), "Channel closed");
    assert_eq!(IpcError::InvalidName("a b".to_string()).message(), "Invalid name: a b");
    assert_eq!(IpcError::AlreadyExists("x".to_string()).message(), "Resource already exists: x");
    assert_eq!(IpcError::NotFound("task-9".to_string()).message(), "Resource not found: task-9");
    assert_eq!(IpcError::PermissionDenied("/run".to_string()).message(), "Permission denied: /run");
    assert_eq!(IpcError::Timeout.message(), "Operation timed out");
    assert_eq!(
        IpcError::BufferTooSmall { needed: 16_777_217, got: 16_777_216 }.message(),
        "Buffer too small: need 16777217, got 16777216"
    );
    assert_eq!(IpcError::Serialization("s".to_string()).message(), "Serialization error: s");
    assert_eq!(IpcError::Deserialization("d".to_string()).message(), "Deserialization error: d");
    assert_eq!(IpcError::Platform("p".to_string()).message(), "Platform error: p");
    assert_eq!(IpcError::InvalidState("i".to_string()).message(), "Invalid state: i");
    assert_eq!(IpcError::WouldBlock.message(), "Operation would block");
    assert_eq!(IpcError::Other("plain".to_string()).message(), "plain");
}

#[test]
fn decimal_numerals_are_written_and_read() {
    assert_eq!(decimal_string(0), "0");
    assert_eq!(decimal_string(7), "7");
    assert_eq!(decimal_string(10), "10");
    assert_eq!(decimal_string(1234567890), "1234567890");
    assert_eq!(decimal_string(u64::MAX), "18446744073709551615");

    assert_eq!(parse_decimal("0"), Some(0));
    assert_eq!(parse_decimal("007"), Some(7));
    assert_eq!(parse_decimal("18446744073709551615"), Some(u64::MAX));
    assert_eq!(parse_decimal("18446744073709551616"), None);
    assert_eq!(parse_decimal("99999999999999999999999"), None);
    assert_eq!(parse_decimal(""), None);
    assert_eq!(parse_decimal("+5"), None);
    assert_eq!(parse_decimal("-5"), None);
    assert_eq!(parse_decimal("12a"), None);
    assert_eq!(parse_decimal("a12"), None);
    assert_eq!(parse_decimal("٣"), None);
}

#[test]
fn searching_in_characters() {
    let hay = chars_of("task.started.täsk");
    let task = chars_of("task");
    let tail = chars_of("täsk");
    assert_eq!(hay.len(), 17);
    assert!(matches_at(&hay, &task, 0));
    assert!(!matches_at(&hay, &task, 1));
    assert!(!matches_at(&hay, &task, 14));
    assert!(!matches_at(&hay, &task, 100));
    assert_eq!(find_from(&hay, &task, 0), Some(0));
    assert_eq!(find_from(&hay, &task, 1), None);
    assert_eq!(find_from(&hay, &tail, 0), Some(13));
    assert_eq!(find_from(&hay, &chars_of(""), 17), Some(17));
    assert_eq!(find_from(&hay, &chars_of(""), 18), None);
    assert!(str_eq("abc", "abc"));
    assert!(!str_eq("abc", "abd"));
    assert!(!str_eq("abc", "ab"));
    assert!(str_eq("", ""));
}

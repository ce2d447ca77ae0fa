//! The local-socket server: its configuration, the messages that travel over
//! a connection, the connection itself over any byte stream, the loop that
//! serves one connection with a handler, and the matching client.

use crate::channel::{
    decode, frame, frame_sent, recv_frame, send_frame, ByteStream, Decoded, MAX_MESSAGE_SIZE,
};
use crate::encoding::{base64_bytes, base64_decode, base64_encode};
use crate::error::{IoErrorKind, IpcError, Result};
use crate::event_stream::id_after;
use crate::graceful::ShutdownModel;
use crate::graceful::{DrainStep, GracefulChannel, ShutdownOp, ShutdownState};
use crate::json::{
    empty_object, json_as_str, json_clone, json_decoding, json_encoding, json_error_text,
    json_from_slice, json_get, json_i64, json_members, json_string, json_to_vec, member,
    member_signed, member_text, object_pair, object_with,
};
use crate::text::{chars_of, concat, matches_at, occurs_at, str_eq, text_of};
use vstd::prelude::*;

verus! {

/// Unique connection identifier.
pub type ConnectionId = u64;

/// The socket path where no runtime directory is configured.
pub const FALLBACK_SOCKET_PATH: &'static str = "/tmp/ipckit.sock";

/// The prefix of a named pipe on Windows.
pub const PIPE_PREFIX: &'static str = "\\\\.\\pipe\\";

/// Socket server configuration.
#[derive(Debug)]
pub struct SocketServerConfig {
    /// Socket path (Unix) or pipe name (Windows).
    pub path: String,
    /// Maximum concurrent connections.
    pub max_connections: usize,
    /// Connection timeout, in milliseconds.
    pub connection_timeout: u64,
    /// Whether to remove a stale socket file before binding.
    pub cleanup_on_start: bool,
    /// Buffer size for reading.
    pub buffer_size: usize,
}

impl SocketServerConfig {
    /// A configuration with the given path and the defaults otherwise.
    pub fn with_path(path: &str) -> (c: Self)
        ensures
            c.path@ == path@,
            c.max_connections == 100,
            c.connection_timeout == 30000,
            c.cleanup_on_start,
            c.buffer_size == 8192,
    {
        SocketServerConfig {
            path: String::from_str(path),
            max_connections: 100,
            connection_timeout: 30000,
            cleanup_on_start: true,
            buffer_size: 8192,
        }
    }

    /// Whether a stale endpoint is to be removed before binding: cleanup is
    /// asked for and the path is in the file system, not a named pipe.
    pub fn removes_stale_endpoint(&self) -> (b: bool)
        ensures
            b == (self.cleanup_on_start && !occurs_at(self.path@, PIPE_PREFIX@, 0)),
    {
        if !self.cleanup_on_start {
            return false;
        }
        let path = chars_of(self.path.as_str());
        let prefix = chars_of(PIPE_PREFIX);
        !matches_at(&path, &prefix, 0)
    }
}

impl Default for SocketServerConfig {
    fn default() -> (c: Self)
        ensures
            c.path@ == FALLBACK_SOCKET_PATH@,
            c.max_connections == 100,
            c.connection_timeout == 30000,
            c.cleanup_on_start,
            c.buffer_size == 8192,
    {
        SocketServerConfig::with_path(FALLBACK_SOCKET_PATH)
    }
}

/// The default socket path: `ipckit.sock` in the runtime directory, or in
/// `/tmp` where none is configured.
pub fn default_socket_path(runtime_dir: Option<&str>) -> (path: String)
    ensures
        path@ == match runtime_dir {
            Some(dir) => dir@ + "/ipckit.sock"@,
            None => FALLBACK_SOCKET_PATH@,
        },
{
    match runtime_dir {
        Some(dir) => concat(dir, "/ipckit.sock"),
        None => String::from_str(FALLBACK_SOCKET_PATH),
    }
}

/// The path of the socket with the given name on POSIX: a name that begins
/// with `/` is the path; any other name stands for `/tmp/<name>.sock`.
pub fn socket_path_for(name: &str) -> (path: String)
    ensures
        path@ == if occurs_at(name@, "/"@, 0) {
            name@
        } else {
            "/tmp/"@ + name@ + ".sock"@
        },
{
    let chars = chars_of(name);
    let slash = chars_of("/");
    if matches_at(&chars, &slash, 0) {
        String::from_str(name)
    } else {
        let mut path = concat("/tmp/", name);
        path.append(".sock");
        path
    }
}

/// The name of the pipe with the given name on Windows: a name that begins
/// with the pipe prefix is the pipe name; any other name gets the prefix.
pub fn pipe_name_for(name: &str) -> (pipe: String)
    ensures
        pipe@ == if occurs_at(name@, PIPE_PREFIX@, 0) {
            name@
        } else {
            PIPE_PREFIX@ + name@
        },
{
    let chars = chars_of(name);
    let prefix = chars_of(PIPE_PREFIX);
    if matches_at(&chars, &prefix, 0) {
        String::from_str(name)
    } else {
        concat(PIPE_PREFIX, name)
    }
}

/// Connection metadata.
#[derive(Debug)]
pub struct ConnectionMetadata {
    /// When the connection was established, in milliseconds since the Unix
    /// epoch.
    pub connected_at: u64,
    /// Process ID of the client, if known.
    pub client_pid: Option<u32>,
    /// What the client said of itself.
    pub client_info: Option<String>,
}

impl ConnectionMetadata {
    /// The metadata of a connection established at time `now`.
    pub fn new(now: u64) -> (m: Self)
        ensures
            m.connected_at == now,
            m.client_pid is None,
            m.client_info is None,
    {
        ConnectionMetadata { connected_at: now, client_pid: None, client_info: None }
    }
}

impl Default for ConnectionMetadata {
    fn default() -> (m: Self)
        ensures
            m.connected_at == 0,
            m.client_pid is None,
            m.client_info is None,
    {
        ConnectionMetadata::new(0)
    }
}

/// Message types.
#[derive(Debug, Clone, Copy, PartialEq, Eq, Structural)]
pub enum MessageType {
    /// Text message.
    Text,
    /// Binary data.
    Binary,
    /// Request (expects a response).
    Request,
    /// Response to a request.
    Response,
    /// Error message.
    Error,
    /// Heartbeat ping.
    Ping,
    /// Heartbeat pong.
    Pong,
}

impl MessageType {
    /// The name of the kind on the wire.
    pub open spec fn name(self) -> Seq<char> {
        match self {
            MessageType::Text => "text"@,
            MessageType::Binary => "binary"@,
            MessageType::Request => "request"@,
            MessageType::Response => "response"@,
            MessageType::Error => "error"@,
            MessageType::Ping => "ping"@,
            MessageType::Pong => "pong"@,
        }
    }

    /// The kind with the given name on the wire.
    pub open spec fn named(name: Seq<char>) -> Option<MessageType> {
        if name == "text"@ {
            Some(MessageType::Text)
        } else if name == "binary"@ {
            Some(MessageType::Binary)
        } else if name == "request"@ {
            Some(MessageType::Request)
        } else if name == "response"@ {
            Some(MessageType::Response)
        } else if name == "error"@ {
            Some(MessageType::Error)
        } else if name == "ping"@ {
            Some(MessageType::Ping)
        } else if name == "pong"@ {
            Some(MessageType::Pong)
        } else {
            None
        }
    }

    /// The name of the kind on the wire.
    pub fn as_str(&self) -> (s: &'static str)
        ensures
            s@ == self.name(),
    {
        match self {
            MessageType::Text => "text",
            MessageType::Binary => "binary",
            MessageType::Request => "request",
            MessageType::Response => "response",
            MessageType::Error => "error",
            MessageType::Ping => "ping",
            MessageType::Pong => "pong",
        }
    }

    /// The kind with the given name on the wire.
    pub fn parse(name: &str) -> (r: Option<MessageType>)
        ensures
            r == MessageType::named(name@),
    {
        if str_eq(name, "text") {
            Some(MessageType::Text)
        } else if str_eq(name, "binary") {
            Some(MessageType::Binary)
        } else if str_eq(name, "request") {
            Some(MessageType::Request)
        } else if str_eq(name, "response") {
            Some(MessageType::Response)
        } else if str_eq(name, "error") {
            Some(MessageType::Error)
        } else if str_eq(name, "ping") {
            Some(MessageType::Ping)
        } else if str_eq(name, "pong") {
            Some(MessageType::Pong)
        } else {
            None
        }
    }
}

/// The names of the kinds are distinct: each kind is the one that its name
/// names.
pub proof fn lemma_kind_names(kind: MessageType)
    ensures
        MessageType::named(kind.name()) == Some(kind),
{
    reveal_strlit("text");
    reveal_strlit("binary");
    reveal_strlit("request");
    reveal_strlit("response");
    reveal_strlit("error");
    reveal_strlit("ping");
    reveal_strlit("pong");
    assert("text"@.len() == 4 && "ping"@.len() == 4 && "pong"@.len() == 4);
    assert("binary"@.len() == 6 && "request"@.len() == 7 && "response"@.len() == 8);
    assert("error"@.len() == 5);
    assert("text"@[0] != "ping"@[0]);
    assert("text"@[0] != "pong"@[0]);
    assert("ping"@[1] != "pong"@[1]);
}

/// A message in the socket protocol: a kind, and a payload with the fields
/// that go with the kind.
#[derive(Debug)]
pub struct Message {
    /// Message type.
    pub msg_type: MessageType,
    /// Message payload.
    pub payload: serde_json::Value,
}

impl Message {
    /// The content of a text message.
    pub open spec fn content(self) -> Option<Seq<char>> {
        member_text(self.payload, "content"@)
    }

    /// The method of a request.
    pub open spec fn method_name(self) -> Option<Seq<char>> {
        member_text(self.payload, "method"@)
    }

    /// The parameters of a request.
    pub open spec fn params_value(self) -> Option<serde_json::Value> {
        member(self.payload, "params"@)
    }

    /// The result of a response.
    pub open spec fn result_value(self) -> Option<serde_json::Value> {
        member(self.payload, "result"@)
    }

    /// The words of an error message.
    pub open spec fn error_text(self) -> Option<Seq<char>> {
        member_text(self.payload, "message"@)
    }

    /// The code of an error message.
    pub open spec fn error_code(self) -> Option<i64> {
        member_signed(self.payload, "code"@)
    }

    /// The bytes of a binary message.
    pub open spec fn binary_data(self) -> Option<Seq<u8>> {
        match member_text(self.payload, "data"@) {
            Some(text) => base64_bytes(text),
            None => None,
        }
    }

    /// Create a text message.
    pub fn text(content: &str) -> (m: Self)
        ensures
            m.msg_type == MessageType::Text,
            m.content() == Some(content@),
            json_members(m.payload).dom() =~= set!["content"@],
    {
        let payload = object_with("content", json_string(content));
        Message { msg_type: MessageType::Text, payload }
    }

    /// Create a request message.
    pub fn request(method: &str, params: serde_json::Value) -> (m: Self)
        ensures
            m.msg_type == MessageType::Request,
            m.method_name() == Some(method@),
            m.params_value() == Some(params),
            json_members(m.payload).dom() =~= set!["method"@, "params"@],
    {
        proof {
            reveal_strlit("method");
            reveal_strlit("params");
            assert("method"@[0] != "params"@[0]);
        }
        let payload = object_pair("method", json_string(method), "params", params);
        Message { msg_type: MessageType::Request, payload }
    }

    /// Create a response message.
    pub fn response(result: serde_json::Value) -> (m: Self)
        ensures
            m.msg_type == MessageType::Response,
            m.result_value() == Some(result),
            json_members(m.payload).dom() =~= set!["result"@],
    {
        let payload = object_with("result", result);
        Message { msg_type: MessageType::Response, payload }
    }

    /// Create an error message.
    pub fn error(code: i32, message: &str) -> (m: Self)
        ensures
            m.msg_type == MessageType::Error,
            m.error_code() == Some(code as i64),
            m.error_text() == Some(message@),
            json_members(m.payload).dom() =~= set!["code"@, "message"@],
    {
        proof {
            reveal_strlit("code");
            reveal_strlit("message");
            assert("code"@[0] != "message"@[0]);
        }
        let payload = object_pair("code", json_i64(code as i64), "message", json_string(message));
        Message { msg_type: MessageType::Error, payload }
    }

    /// Create a ping message.
    pub fn ping() -> (m: Self)
        ensures
            m.msg_type == MessageType::Ping,
            json_members(m.payload) =~= Map::empty(),
    {
        Message { msg_type: MessageType::Ping, payload: empty_object() }
    }

    /// Create a pong message.
    pub fn pong() -> (m: Self)
        ensures
            m.msg_type == MessageType::Pong,
            json_members(m.payload) =~= Map::empty(),
    {
        Message { msg_type: MessageType::Pong, payload: empty_object() }
    }

    /// Create a text message whose payload is the given JSON value.
    pub fn json(value: serde_json::Value) -> (m: Self)
        ensures
            m == (Message { msg_type: MessageType::Text, payload: value }),
    {
        Message { msg_type: MessageType::Text, payload: value }
    }

    /// Create a binary message: the bytes travel as base64 text.
    pub fn binary(data: Vec<u8>) -> (m: Self)
        requires
            data@.len() <= usize::MAX / 2,
        ensures
            m.msg_type == MessageType::Binary,
            m.binary_data() == Some(data@),
            json_members(m.payload).dom() =~= set!["data"@],
    {
        let text = base64_encode(data.as_slice());
        let payload = object_with("data", json_string(text.as_str()));
        Message { msg_type: MessageType::Binary, payload }
    }

    /// The text of the member of the payload under `key`.
    fn string_member(&self, key: &str) -> (r: Option<String>)
        ensures
            text_of(r) == member_text(self.payload, key@),
    {
        match json_get(&self.payload, key) {
            Some(value) => json_as_str(&value),
            None => None,
        }
    }

    /// Get the binary data, where the payload holds well-formed base64 text.
    pub fn as_binary(&self) -> (r: Option<Vec<u8>>)
        ensures
            match r {
                Some(bytes) => self.binary_data() == Some(bytes@),
                None => self.binary_data() is None,
            },
    {
        match self.string_member("data") {
            Some(text) => base64_decode(text.as_str()),
            None => None,
        }
    }

    /// Get the text content.
    pub fn as_text(&self) -> (r: Option<String>)
        ensures
            text_of(r) == self.content(),
    {
        self.string_member("content")
    }

    /// Get the method name (for requests).
    pub fn method(&self) -> (r: Option<String>)
        ensures
            text_of(r) == self.method_name(),
    {
        self.string_member("method")
    }

    /// Get the params (for requests).
    pub fn params(&self) -> (r: Option<serde_json::Value>)
        ensures
            r == self.params_value(),
    {
        json_get(&self.payload, "params")
    }

    /// Get the result (for responses).
    pub fn result(&self) -> (r: Option<serde_json::Value>)
        ensures
            r == self.result_value(),
    {
        json_get(&self.payload, "result")
    }

    /// Whether `envelope` is the JSON object that carries this message: the
    /// name of the kind under `msg_type`, the payload under `payload`.
    pub open spec fn carried_by(self, envelope: serde_json::Value) -> bool {
        &&& member_text(envelope, "msg_type"@) == Some(self.msg_type.name())
        &&& member(envelope, "payload"@) == Some(self.payload)
    }

    /// The message that `envelope` carries, where it carries one.
    pub open spec fn carried(envelope: serde_json::Value) -> Option<Message> {
        match (member_text(envelope, "msg_type"@), member(envelope, "payload"@)) {
            (Some(name), Some(payload)) => match MessageType::named(name) {
                Some(msg_type) => Some(Message { msg_type, payload }),
                None => None,
            },
            _ => None,
        }
    }

    /// The words with which bytes that carry no message are refused.
    pub open spec fn refusal(envelope: serde_json::Value) -> Seq<char> {
        match member_text(envelope, "msg_type"@) {
            None => "missing field `msg_type`"@,
            Some(name) => if MessageType::named(name) is None {
                "unknown message type"@
            } else {
                "missing field `payload`"@
            },
        }
    }

    /// The JSON object that carries the message: the name of the kind under
    /// `msg_type`, the payload under `payload`.
    pub fn envelope(&self) -> (envelope: serde_json::Value)
        ensures
            self.carried_by(envelope),
            json_members(envelope).dom() =~= set!["msg_type"@, "payload"@],
    {
        proof {
            reveal_strlit("msg_type");
            reveal_strlit("payload");
            assert("msg_type"@[0] != "payload"@[0]);
        }
        object_pair(
            "msg_type",
            json_string(self.msg_type.as_str()),
            "payload",
            json_clone(&self.payload),
        )
    }

    /// Reads the message that a JSON value carries. Fails with
    /// `Deserialization` where the value is no object with a known kind
    /// under `msg_type` and a payload under `payload`.
    pub fn from_envelope(envelope: &serde_json::Value) -> (r: Result<Message>)
        ensures
            match Message::carried(*envelope) {
                Some(message) => r == Ok::<Message, IpcError>(message),
                None => r matches Err(IpcError::Deserialization(text)) && text@
                    == Message::refusal(*envelope),
            },
    {
        let name = match json_get(envelope, "msg_type") {
            Some(value) => json_as_str(&value),
            None => None,
        };
        let name = match name {
            Some(name) => name,
            None => {
                return Err(
                    IpcError::Deserialization(String::from_str("missing field `msg_type`")),
                );
            },
        };
        let msg_type = match MessageType::parse(name.as_str()) {
            Some(msg_type) => msg_type,
            None => {
                return Err(IpcError::Deserialization(String::from_str("unknown message type")));
            },
        };
        match json_get(envelope, "payload") {
            Some(payload) => Ok(Message { msg_type, payload }),
            None => Err(IpcError::Deserialization(String::from_str("missing field `payload`"))),
        }
    }

    /// Encodes the message for the wire: the encoding of the JSON object that
    /// carries it. Every message has an encoding.
    pub fn encode(&self) -> (r: Result<Vec<u8>>)
        ensures
            r is Ok,
            exists|envelope: serde_json::Value| #[trigger]
                self.carried_by(envelope) && r->Ok_0@ == json_encoding(envelope),
    {
        let envelope = self.envelope();
        match json_to_vec(&envelope) {
            Ok(bytes) => Ok(bytes),
            Err(e) => Err(IpcError::Serialization(json_error_text(&e))),
        }
    }

    /// Decodes a message from the wire. Fails with `Deserialization` where
    /// the bytes are not JSON, or not an object that carries a message.
    pub fn decode(bytes: &[u8]) -> (r: Result<Message>)
        ensures
            match json_decoding(bytes@) {
                Some(envelope) => match Message::carried(envelope) {
                    Some(message) => r == Ok::<Message, IpcError>(message),
                    None => r matches Err(IpcError::Deserialization(text)) && text@
                        == Message::refusal(envelope),
                },
                None => r is Err && r->Err_0 is Deserialization,
            },
    {
        match json_from_slice(bytes) {
            Ok(envelope) => Message::from_envelope(&envelope),
            Err(e) => Err(IpcError::Deserialization(json_error_text(&e))),
        }
    }
}

impl Clone for Message {
    fn clone(&self) -> (m: Self)
        ensures
            m == *self,
    {
        Message { msg_type: self.msg_type, payload: json_clone(&self.payload) }
    }
}

/// Decoding inverts encoding: where `serde_json` reads back the object that
/// it wrote, the object that carries a message decodes to that message.
pub proof fn lemma_message_round_trip(message: Message, envelope: serde_json::Value)
    requires
        message.carried_by(envelope),
        json_decoding(json_encoding(envelope)) == Some(envelope),
    ensures
        json_decoding(json_encoding(envelope)) matches Some(read) && Message::carried(read)
            == Some(message),
{
    lemma_kind_names(message.msg_type);
}

/// Whether `r` is what `reply` means to the caller of `request`.
pub open spec fn is_reply_meaning(reply: Message, r: Result<serde_json::Value>) -> bool {
    match reply.msg_type {
        MessageType::Response => match reply.result_value() {
            Some(value) => r == Ok::<serde_json::Value, IpcError>(value),
            None => r matches Err(IpcError::Deserialization(text)) && text@
                == "Missing result in response"@,
        },
        MessageType::Error => r matches Err(IpcError::Other(text)) && text@
            == match reply.error_text() {
            Some(words) => words,
            None => "Unknown error"@,
        },
        _ => r matches Err(IpcError::Deserialization(text)) && text@
            == "Unexpected message type"@,
    }
}

/// Reads a reply to a request: the result of a response; `Other` with the
/// words of an error message, or with "Unknown error" where it has none;
/// `Deserialization` for a response without a result and for a message of
/// any other kind.
pub fn read_reply(reply: &Message) -> (r: Result<serde_json::Value>)
    ensures
        is_reply_meaning(*reply, r),
{
    match reply.msg_type {
        MessageType::Response => match reply.result() {
            Some(value) => Ok(value),
            None => Err(IpcError::Deserialization(String::from_str("Missing result in response"))),
        },
        MessageType::Error => {
            let words = match reply.string_member("message") {
                Some(words) => words,
                None => String::from_str("Unknown error"),
            };
            Err(IpcError::Other(words))
        },
        _ => Err(IpcError::Deserialization(String::from_str("Unexpected message type"))),
    }
}

/// Whether `envelope` carries a request for `method` with `params`.
pub open spec fn carries_request(
    envelope: serde_json::Value,
    method: Seq<char>,
    params: serde_json::Value,
) -> bool {
    &&& member_text(envelope, "msg_type"@) == Some(MessageType::Request.name())
    &&& member(envelope, "payload"@) matches Some(payload)
    &&& member_text(payload, "method"@) == Some(method)
    &&& member(payload, "params"@) == Some(params)
}

/// What the head of a stream holds for a connection.
pub enum Incoming {
    /// A frame that carries `message`, and the bytes after it.
    Message { message: Message, rest: Seq<u8> },
    /// A frame that carries no message, and the bytes after it.
    Garbage { payload: Seq<u8>, rest: Seq<u8> },
    /// A header that declares more than the bound allows.
    TooLong { declared: nat },
    /// The stream ends inside a frame.
    Truncated,
}

/// Reads the head of `wire` as a frame that carries a message.
pub open spec fn incoming_message(wire: Seq<u8>) -> Incoming {
    match decode(wire) {
        Decoded::Frame { payload, rest } => match json_decoding(payload) {
            Some(envelope) => match Message::carried(envelope) {
                Some(message) => Incoming::Message { message, rest },
                None => Incoming::Garbage { payload, rest },
            },
            None => Incoming::Garbage { payload, rest },
        },
        Decoded::TooLong { declared } => Incoming::TooLong { declared },
        Decoded::Truncated => Incoming::Truncated,
    }
}

/// Whether `r` and what the stream holds written `after` are what sending
/// `message` owes: the frame of the encoding of the JSON object that carries
/// the message is sent as `frame_sent` says.
pub open spec fn message_sent(
    message: Message,
    reliable: bool,
    before: Seq<u8>,
    after: Seq<u8>,
    r: Result<()>,
) -> bool {
    exists|envelope: serde_json::Value| #[trigger]
        message.carried_by(envelope) && frame_sent(
            json_encoding(envelope),
            reliable,
            before,
            after,
            r,
        )
}

/// Whether `r` and what remains to be read, `rest`, are what receiving one
/// message owes, for a stream that had `wire` to read: a frame that carries
/// no message is consumed and refused with `Deserialization`. On a stream
/// that does not fail the result is the one that `incoming_message` gives.
pub open spec fn message_received(wire: Seq<u8>, reliable: bool, rest: Seq<u8>, r: Result<Message>) -> bool {
    &&& rest.len() <= wire.len()
    &&& match r {
        Ok(message) => incoming_message(wire) == (Incoming::Message { message, rest }),
        Err(IpcError::Deserialization(_)) => incoming_message(wire) matches Incoming::Garbage {
            rest: left,
            ..
        } && left == rest,
        Err(IpcError::BufferTooSmall { needed, got }) => {
            &&& incoming_message(wire) == (Incoming::TooLong { declared: needed as nat })
            &&& got == MAX_MESSAGE_SIZE
            &&& rest == wire.skip(4)
        },
        Err(e) => e is Io && (reliable ==> incoming_message(wire) is Truncated && e
            == IpcError::Io(IoErrorKind::UnexpectedEof)),
    }
}

/// Whether `r` and what remains to be read, `rest`, are what reading the
/// reply to a request owes: the next frame is read as a message, and the
/// message as `is_reply_meaning` says.
pub open spec fn reply_read(wire: Seq<u8>, reliable: bool, rest: Seq<u8>, r: Result<serde_json::Value>) -> bool {
    &&& rest.len() <= wire.len()
    &&& if r is Err && r->Err_0 is Io {
        reliable ==> incoming_message(wire) is Truncated && r == Err::<serde_json::Value, IpcError>(
            IpcError::Io(IoErrorKind::UnexpectedEof),
        )
    } else {
        match incoming_message(wire) {
            Incoming::Message { message, rest: left } => left == rest && is_reply_meaning(
                message,
                r,
            ),
            Incoming::Garbage { rest: left, .. } => left == rest && r is Err && r->Err_0
                is Deserialization,
            Incoming::TooLong { declared } => rest == wire.skip(4) && r == Err::<
                serde_json::Value,
                IpcError,
            >(IpcError::BufferTooSmall { needed: declared as usize, got: MAX_MESSAGE_SIZE })
                && declared <= usize::MAX,
            Incoming::Truncated => false,
        }
    }
}

/// Whether the request for `method` with `params` has been made as owed:
/// its frame is sent as `frame_sent` says; where that fails the failure is
/// the result and nothing is read; where it succeeds the reply is read as
/// `reply_read` says.
pub open spec fn request_made(
    method: Seq<char>,
    params: serde_json::Value,
    reliable: bool,
    wire: Seq<u8>,
    rest: Seq<u8>,
    before: Seq<u8>,
    after: Seq<u8>,
    r: Result<serde_json::Value>,
) -> bool {
    exists|envelope: serde_json::Value, sent: Result<()>| #[trigger]
        frame_sent(json_encoding(envelope), reliable, before, after, sent) && carries_request(
            envelope,
            method,
            params,
        ) && match sent {
            Ok(_) => reply_read(wire, reliable, rest, r),
            Err(e) => rest == wire && r == Err::<serde_json::Value, IpcError>(e),
        }
}

/// A client connection: an identifier, the stream to the peer, and what is
/// known of the peer.
#[derive(Debug)]
pub struct Connection<S> {
    id: ConnectionId,
    stream: S,
    metadata: ConnectionMetadata,
}

impl<S: ByteStream> Connection<S> {
    /// The identifier of the connection.
    pub closed spec fn ident(&self) -> ConnectionId {
        self.id
    }

    /// The stream of the connection.
    pub closed spec fn transport(&self) -> S {
        self.stream
    }

    /// What is known of the peer.
    pub closed spec fn peer(&self) -> ConnectionMetadata {
        self.metadata
    }

    /// A connection with the given identifier over `stream`, established at
    /// time `now`.
    pub fn new(id: ConnectionId, stream: S, now: u64) -> (c: Self)
        ensures
            c.ident() == id,
            c.transport() == stream,
            c.peer().connected_at == now,
            c.peer().client_pid is None,
            c.peer().client_info is None,
    {
        Connection { id, stream, metadata: ConnectionMetadata::new(now) }
    }

    /// Get the connection ID.
    pub fn id(&self) -> (id: ConnectionId)
        ensures
            id == self.ident(),
    {
        self.id
    }

    /// Get connection metadata.
    pub fn metadata(&self) -> (m: &ConnectionMetadata)
        ensures
            *m == self.peer(),
    {
        &self.metadata
    }

    /// The stream of the connection.
    pub fn stream(&self) -> (s: &S)
        ensures
            *s == self.transport(),
    {
        &self.stream
    }

    /// Takes the connection apart and returns its stream.
    pub fn into_stream(self) -> (s: S)
        ensures
            s == self.transport(),
    {
        self.stream
    }

    /// Set client info.
    pub fn set_client_info(&mut self, info: &str)
        ensures
            final(self).ident() == old(self).ident(),
            final(self).transport() == old(self).transport(),
            final(self).peer().connected_at == old(self).peer().connected_at,
            final(self).peer().client_pid == old(self).peer().client_pid,
            final(self).peer().client_info is Some,
            final(self).peer().client_info->Some_0@ == info@,
    {
        self.metadata.client_info = Some(String::from_str(info));
    }

    /// Sends a message as one frame. Nothing is written where the encoding
    /// of the message is over the bound (`BufferTooSmall`).
    pub fn send(&mut self, msg: &Message) -> (r: Result<()>)
        ensures
            final(self).ident() == old(self).ident(),
            final(self).peer() == old(self).peer(),
            final(self).transport().incoming() == old(self).transport().incoming(),
            final(self).transport().reliable() == old(self).transport().reliable(),
            message_sent(
                *msg,
                old(self).transport().reliable(),
                old(self).transport().written(),
                final(self).transport().written(),
                r,
            ),
    {
        let bytes = match msg.encode() {
            Ok(bytes) => bytes,
            Err(e) => {
                return Err(e);
            },
        };
        let ghost envelope = choose|envelope: serde_json::Value| #[trigger]
            msg.carried_by(envelope) && bytes@ == json_encoding(envelope);
        let r = send_frame(&mut self.stream, bytes.as_slice());
        proof {
            assert(msg.carried_by(envelope));
            assert(frame_sent(
                json_encoding(envelope),
                old(self).transport().reliable(),
                old(self).transport().written(),
                self.transport().written(),
                r,
            ));
        }
        r
    }

    /// Receives a message: reads one frame and decodes its payload. A frame
    /// that carries no message is consumed and refused with
    /// `Deserialization`.
    pub fn recv(&mut self) -> (r: Result<Message>)
        ensures
            final(self).ident() == old(self).ident(),
            final(self).peer() == old(self).peer(),
            final(self).transport().written() == old(self).transport().written(),
            final(self).transport().reliable() == old(self).transport().reliable(),
            message_received(
                old(self).transport().incoming(),
                old(self).transport().reliable(),
                final(self).transport().incoming(),
                r,
            ),
            r is Ok ==> final(self).transport().incoming().len() < old(self).transport().incoming().len(),
    {
        let payload = match recv_frame(&mut self.stream) {
            Ok(payload) => payload,
            Err(e) => {
                return Err(e);
            },
        };
        Message::decode(payload.as_slice())
    }

    /// Receives a message without waiting. A byte stream that blocks has no
    /// such read: the call fails with `WouldBlock` and reads nothing.
    pub fn try_recv(&mut self) -> (r: Result<Option<Message>>)
        ensures
            r matches Err(IpcError::WouldBlock),
            final(self).ident() == old(self).ident(),
            final(self).peer() == old(self).peer(),
            final(self).transport() == old(self).transport(),
    {
        Err(IpcError::WouldBlock)
    }

    /// Sends a request and waits for the reply: one frame out, then the next
    /// frame in, read as `read_reply` reads it. Where the request cannot be
    /// sent, nothing is read.
    pub fn request(&mut self, method: &str, params: serde_json::Value) -> (r: Result<
        serde_json::Value,
    >)
        ensures
            final(self).ident() == old(self).ident(),
            final(self).peer() == old(self).peer(),
            final(self).transport().reliable() == old(self).transport().reliable(),
            request_made(
                method@,
                params,
                old(self).transport().reliable(),
                old(self).transport().incoming(),
                final(self).transport().incoming(),
                old(self).transport().written(),
                final(self).transport().written(),
                r,
            ),
    {
        let message = Message::request(method, params);
        let ghost wire = self.transport().incoming();
        let ghost before = self.transport().written();
        let ghost reliable = self.transport().reliable();
        let sent = self.send(&message);
        let ghost envelope = choose|envelope: serde_json::Value| #[trigger]
            message.carried_by(envelope) && frame_sent(
                json_encoding(envelope),
                reliable,
                before,
                self.transport().written(),
                sent,
            );
        proof {
            assert(carries_request(envelope, method@, params));
        }
        match sent {
            Ok(_) => {},
            Err(e) => {
                proof {
                    assert(frame_sent(
                        json_encoding(envelope),
                        reliable,
                        before,
                        self.transport().written(),
                        Err::<(), IpcError>(e),
                    ));
                }
                return Err(e);
            },
        }
        let ghost out = Ok::<(), IpcError>(());
        proof {
            assert(frame_sent(json_encoding(envelope), reliable, before, self.transport().written(), out));
        }
        let reply = match self.recv() {
            Ok(reply) => reply,
            Err(e) => {
                return Err(e);
            },
        };
        read_reply(&reply)
    }
}

/// What a handler does with the messages of a connection.
///
/// A handler answers a message with its result; it does not read from the
/// stream of the connection nor write to it, so that requests and replies
/// stay in step. It may note what the client says of itself.
pub trait ConnectionHandler<S: ByteStream> {
    /// What the handler needs to be called.
    spec fn ready(&self) -> bool;

    /// Whether the handler lets connection `id` in.
    spec fn greets(&self, id: ConnectionId) -> bool;

    /// Whether `outcome` is an answer of the handler to `msg` on connection
    /// `id`.
    spec fn replies(&self, id: ConnectionId, msg: Message,
        outcome: Result<Option<Message>>) -> bool;

    /// Called when a new connection is established. An error ends the
    /// connection before any message is read.
    fn on_connect(&self, conn: &mut Connection<S>) -> (r: Result<()>)
        requires
            self.ready(),
        ensures
            final(conn).ident() == old(conn).ident(),
            final(conn).transport() == old(conn).transport(),
            r is Ok == self.greets(old(conn).ident()),
    ;

    /// Called when a message is received. Returns the reply, if any; an
    /// error is reported to the client and does not end the connection.
    fn on_message(&self, conn: &mut Connection<S>, msg: Message) -> (r: Result<Option<Message>>)
        requires
            self.ready(),
        ensures
            final(conn).ident() == old(conn).ident(),
            final(conn).transport() == old(conn).transport(),
            self.replies(old(conn).ident(), msg, r),
    ;

    /// Called when a connection is closed.
    fn on_disconnect(&self, conn_id: ConnectionId)
        requires
            self.ready(),
    ;
}

/// A handler made of a function: the function answers each message, and
/// nothing happens when a connection opens or closes.
#[derive(Clone)]
pub struct FnHandler<F> {
    handler: F,
}

impl<F: Fn(ConnectionId, Message) -> Result<Option<Message>>> FnHandler<F> {
    /// Create a new function-based handler.
    pub fn new(handler: F) -> (h: Self)
        requires
            forall|id: ConnectionId, msg: Message| call_requires(handler, (id, msg)),
        ensures
            h.function() == handler,
    {
        FnHandler { handler }
    }

    /// The function of the handler.
    pub closed spec fn function(&self) -> F {
        self.handler
    }
}

impl<S: ByteStream, F: Fn(ConnectionId, Message) -> Result<Option<Message>>> ConnectionHandler<
    S,
> for FnHandler<F> {
    open spec fn ready(&self) -> bool {
        forall|id: ConnectionId, msg: Message| call_requires(self.function(), (id, msg))
    }

    open spec fn greets(&self, id: ConnectionId) -> bool {
        true
    }

    open spec fn replies(&self, id: ConnectionId, msg: Message,
        outcome: Result<Option<Message>>) -> bool {
        call_ensures(self.function(), (id, msg), outcome)
    }

    fn on_connect(&self, conn: &mut Connection<S>) -> (r: Result<()>) {
        Ok(())
    }

    fn on_message(&self, conn: &mut Connection<S>, msg: Message) -> (r: Result<Option<Message>>) {
        let id = conn.id();
        assert(call_requires(self.function(), (id, msg)));
        (self.handler)(id, msg)
    }

    fn on_disconnect(&self, conn_id: ConnectionId) {
    }
}

/// Why the service of a connection ended.
#[derive(Debug, Clone, Copy, PartialEq, Eq, Structural)]
pub enum CloseCause {
    /// The server is shutting down.
    Shutdown,
    /// The handler refused the connection.
    Refused,
    /// The stream ended: the peer is gone.
    PeerClosed,
    /// A frame could not be read, or carried no message.
    ReceiveFailed,
    /// A reply of the handler could not be sent.
    SendFailed,
}

/// What the server does after one turn of serving a connection.
#[derive(Debug, Clone, Copy, PartialEq, Eq, Structural)]
pub enum ServeStep {
    /// A message was handled: serve the next.
    Continue,
    /// The connection is at its end.
    Close(CloseCause),
}

/// What a connection was served: how many messages, and why no more.
#[derive(Debug, Clone, Copy, PartialEq, Eq, Structural)]
pub struct Served {
    /// The number of messages handled, or `usize::MAX` where they were more.
    pub handled: usize,
    /// Why the service ended.
    pub cause: CloseCause,
}

/// Whether `report` tells a client of the handler's error `e`: an error
/// message with the code -1 and the words of the error.
pub open spec fn reports(report: Message, e: IpcError) -> bool {
    &&& report.msg_type == MessageType::Error
    &&& report.error_code() == Some(-1i64)
    &&& report.error_text() == Some(e.message_text())
}

/// The message with which the server answers what the handler returned: the
/// handler's reply; none where it has none; and for a handler's error an
/// error message with the code -1 and the words of the error.
pub fn reply_for(outcome: Result<Option<Message>>) -> (reply: Option<Message>)
    ensures
        match outcome {
            Ok(answer) => reply == answer,
            Err(e) => reply matches Some(report) && reports(report, e),
        },
{
    match outcome {
        Ok(answer) => answer,
        Err(e) => Some(Message::error(-1, e.message().as_str())),
    }
}

/// What a turn owes on a stream that does not fail, after the handler has
/// answered a message with `outcome`, for what the stream held written
/// `before` and holds `after`. Without a reply nothing is written and the
/// connection goes on. A reply is sent as `message_sent` says: the
/// connection goes on where it is sent, and ends where its encoding is over
/// the bound. The report of an error is sent in the same way, and the
/// connection goes on in either case.
pub open spec fn turn_owes(
    outcome: Result<Option<Message>>,
    before: Seq<u8>,
    after: Seq<u8>,
    step: ServeStep,
) -> bool {
    match outcome {
        Ok(None) => step == ServeStep::Continue && after == before,
        Ok(Some(reply)) => exists|sent: Result<()>| #[trigger]
            message_sent(reply, true, before, after, sent) && step == if sent is Ok {
                ServeStep::Continue
            } else {
                ServeStep::Close(CloseCause::SendFailed)
            },
        Err(e) => step == ServeStep::Continue && exists|report: Message, sent: Result<()>| #[trigger]
            message_sent(report, true, before, after, sent) && reports(report, e),
    }
}

/// One turn of serving a connection: receives one message, hands it to the
/// handler, and sends the reply that `reply_for` gives. The turn ends the
/// connection where the server is shutting down, where no message can be
/// read, and where a reply of the handler cannot be sent; the report of a
/// handler's error is sent as far as the stream takes it.
pub fn serve_step<S: ByteStream, H: ConnectionHandler<S>>(
    conn: &mut Connection<S>,
    handler: &H,
    shutdown: bool,
) -> (step: ServeStep)
    requires
        handler.ready(),
    ensures
        final(conn).ident() == old(conn).ident(),
        final(conn).transport().reliable() == old(conn).transport().reliable(),
        final(conn).transport().incoming().len() <= old(conn).transport().incoming().len(),
        step != ServeStep::Close(CloseCause::Refused),
        shutdown <==> step == ServeStep::Close(CloseCause::Shutdown),
        shutdown ==> *final(conn) == *old(conn),
        step == ServeStep::Continue || step == ServeStep::Close(CloseCause::SendFailed) ==> (
        incoming_message(old(conn).transport().incoming()) matches Incoming::Message { rest, .. }
            && final(conn).transport().incoming() == rest),
        !shutdown && old(conn).transport().reliable() ==> match incoming_message(
            old(conn).transport().incoming(),
        ) {
            Incoming::Message { message, rest } => final(conn).transport().incoming() == rest
                && exists|outcome: Result<Option<Message>>| #[trigger]
                handler.replies(old(conn).ident(), message, outcome) && turn_owes(
                    outcome,
                    old(conn).transport().written(),
                    final(conn).transport().written(),
                    step,
                ),
            Incoming::Truncated => step == ServeStep::Close(CloseCause::PeerClosed)
                && final(conn).transport().written() == old(conn).transport().written(),
            _ => step == ServeStep::Close(CloseCause::ReceiveFailed)
                && final(conn).transport().written() == old(conn).transport().written(),
        },
{
    if shutdown {
        return ServeStep::Close(CloseCause::Shutdown);
    }
    let msg = match conn.recv() {
        Ok(msg) => msg,
        Err(IpcError::Io(IoErrorKind::UnexpectedEof)) => {
            return ServeStep::Close(CloseCause::PeerClosed);
        },
        Err(_) => {
            return ServeStep::Close(CloseCause::ReceiveFailed);
        },
    };
    let ghost message = msg;
    let ghost before = conn.transport().written();
    let ghost reliable = conn.transport().reliable();
    let outcome = handler.on_message(conn, msg);
    let ghost answered = outcome;
    let failed = outcome.is_err();
    let step = match reply_for(outcome) {
        Some(reply) => {
            let ghost sending = reply;
            let sent = conn.send(&reply);
            proof {
                if reliable {
                    assert(message_sent(sending, true, before, conn.transport().written(), sent));
                }
            }
            match sent {
                Ok(_) => ServeStep::Continue,
                Err(_) => {
                    if failed {
                        ServeStep::Continue
                    } else {
                        ServeStep::Close(CloseCause::SendFailed)
                    }
                },
            }
        },
        None => ServeStep::Continue,
    };
    proof {
        if reliable {
            assert(handler.replies(old(conn).ident(), message, answered));
            assert(turn_owes(answered, before, conn.transport().written(), step));
        }
    }
    step
}

/// The number of frames at the head of `wire` that carry a message, one
/// after the other.
pub open spec fn leading_messages(wire: Seq<u8>) -> nat
    decreases wire.len(),
{
    match incoming_message(wire) {
        Incoming::Message { rest, .. } => if rest.len() < wire.len() {
            1 + leading_messages(rest)
        } else {
            0
        },
        _ => 0,
    }
}

/// The count of `messages`, as far as `usize` counts.
pub open spec fn counted(messages: nat) -> usize {
    if messages > usize::MAX {
        usize::MAX
    } else {
        messages as usize
    }
}

/// Whether a service of `turns` turns that went on, and one that closed the
/// connection for `cause`, is what the handler owes on a stream that does
/// not fail, had `wire` to read, held `before` written and holds `after`:
/// every turn that goes on reads one message and writes what `turn_owes`
/// says for an answer of the handler; the closing turn finds the stream at
/// its end, or a frame that it cannot read, or an answer that it cannot
/// send.
pub open spec fn served_turns<S: ByteStream, H: ConnectionHandler<S>>(
    handler: H,
    id: ConnectionId,
    wire: Seq<u8>,
    before: Seq<u8>,
    after: Seq<u8>,
    turns: nat,
    cause: CloseCause,
) -> bool
    decreases turns,
{
    match incoming_message(wire) {
        Incoming::Message { message, rest } => if turns == 0 {
            cause == CloseCause::SendFailed && exists|outcome: Result<Option<Message>>| #[trigger]
                handler.replies(id, message, outcome) && turn_owes(
                    outcome,
                    before,
                    after,
                    ServeStep::Close(CloseCause::SendFailed),
                )
        } else {
            exists|outcome: Result<Option<Message>>, mid: Seq<u8>| #[trigger]
                turn_owes(outcome, before, mid, ServeStep::Continue) && handler.replies(
                    id,
                    message,
                    outcome,
                ) && served_turns::<S, H>(handler, id, rest, mid, after, (turns - 1) as nat, cause)
        },
        Incoming::Truncated => turns == 0 && cause == CloseCause::PeerClosed && after == before,
        _ => turns == 0 && cause == CloseCause::ReceiveFailed && after == before,
    }
}

/// Whether `served` and the stream `after` are what serving connection `id`
/// owes, for a stream that was `before`. A connection that the handler
/// refuses, and one that comes while the server shuts down, is not touched.
/// Any other is served until a turn closes it; on a stream that does not
/// fail the turns are those that `served_turns` describes.
pub open spec fn service<S: ByteStream, H: ConnectionHandler<S>>(
    handler: H,
    id: ConnectionId,
    stop: bool,
    before: S,
    after: S,
    served: Served,
) -> bool {
    &&& after.reliable() == before.reliable()
    &&& after.incoming().len() <= before.incoming().len()
    &&& served.handled <= leading_messages(before.incoming())
    &&& if !handler.greets(id) {
        served == (Served { handled: 0, cause: CloseCause::Refused }) && after == before
    } else if stop {
        served == (Served { handled: 0, cause: CloseCause::Shutdown }) && after == before
    } else {
        &&& served.cause != CloseCause::Refused
        &&& served.cause != CloseCause::Shutdown
        &&& served.cause == CloseCause::SendFailed ==> served.handled < leading_messages(
            before.incoming(),
        )
        &&& before.reliable() ==> exists|turns: nat|
            served.handled == counted(turns) && #[trigger] served_turns::<S, H>(
                handler,
                id,
                before.incoming(),
                before.written(),
                after.written(),
                turns,
                served.cause,
            )
    }
}

/// Whether the stream `after` is what serving connection `id` to its end,
/// on a server that does not shut down, leaves of a stream that was
/// `before`, for some count of messages and some cause of closing.
pub open spec fn served_to_end<S: ByteStream, H: ConnectionHandler<S>>(
    handler: H,
    id: ConnectionId,
    before: S,
    after: S,
) -> bool {
    exists|outcome: Served| #[trigger] service(handler, id, false, before, after, outcome)
}

/// Serves a connection to its end: greets it with the handler's
/// `on_connect`, takes turn after turn until one closes the connection, and
/// tells the handler that the connection is gone. Where `on_connect`
/// refuses the connection, nothing is read and the handler is not told of a
/// disconnect.
pub fn serve<S: ByteStream, H: ConnectionHandler<S>>(
    conn: &mut Connection<S>,
    handler: &H,
    shutdown: &ShutdownState,
) -> (served: Served)
    requires
        handler.ready(),
    ensures
        final(conn).ident() == old(conn).ident(),
        service(
            *handler,
            old(conn).ident(),
            shutdown@.shutdown,
            old(conn).transport(),
            final(conn).transport(),
            served,
        ),
{
    match handler.on_connect(conn) {
        Ok(_) => {},
        Err(_) => {
            return Served { handled: 0, cause: CloseCause::Refused };
        },
    }
    let stop = shutdown.is_shutdown();
    let mut handled: usize = 0;
    let mut cause = CloseCause::Shutdown;
    let ghost id = conn.ident();
    let ghost reliable = conn.transport().reliable();
    let ghost first_wire = conn.transport().incoming();
    let ghost first_written = conn.transport().written();
    let ghost total = leading_messages(first_wire);
    let ghost mut turns: nat = 0;
    loop
        invariant_except_break
            turns + leading_messages(conn.transport().incoming()) == total,
            reliable ==> forall|after: Seq<u8>, more: nat, why: CloseCause| #[trigger]
                served_turns::<S, H>(
                    *handler,
                    id,
                    conn.transport().incoming(),
                    conn.transport().written(),
                    after,
                    more,
                    why,
                ) ==> served_turns::<S, H>(
                    *handler,
                    id,
                    first_wire,
                    first_written,
                    after,
                    turns + more,
                    why,
                ),
        invariant
            handler.ready(),
            handler.greets(id),
            id == old(conn).ident(),
            conn.ident() == id,
            reliable == old(conn).transport().reliable(),
            conn.transport().reliable() == reliable,
            first_wire == old(conn).transport().incoming(),
            first_written == old(conn).transport().written(),
            conn.transport().incoming().len() <= first_wire.len(),
            total == leading_messages(first_wire),
            turns <= total,
            handled == counted(turns),
            stop == shutdown@.shutdown,
            stop ==> turns == 0 && conn.transport() == old(conn).transport(),
        ensures
            stop <==> cause == CloseCause::Shutdown,
            cause != CloseCause::Refused,
            cause == CloseCause::SendFailed ==> turns < total,
            reliable && !stop ==> served_turns::<S, H>(
                *handler,
                id,
                first_wire,
                first_written,
                conn.transport().written(),
                turns,
                cause,
            ),
        decreases conn.transport().incoming().len(),
    {
        let ghost wire = conn.transport().incoming();
        let ghost written = conn.transport().written();
        proof {
            lemma_message_takes_bytes(wire);
        }
        match serve_step(conn, handler, stop) {
            ServeStep::Continue => {
                proof {
                    if reliable {
                        let message = incoming_message(wire)->Message_message;
                        let rest = conn.transport().incoming();
                        let mid = conn.transport().written();
                        let outcome = choose|outcome: Result<Option<Message>>| #[trigger]
                            handler.replies(id, message, outcome) && turn_owes(
                                outcome,
                                written,
                                mid,
                                ServeStep::Continue,
                            );
                        assert forall|after: Seq<u8>, more: nat, why: CloseCause| #[trigger]
                            served_turns::<S, H>(
                                *handler,
                                id,
                                rest,
                                mid,
                                after,
                                more,
                                why,
                            ) implies served_turns::<S, H>(
                            *handler,
                            id,
                            first_wire,
                            first_written,
                            after,
                            (turns + 1) + more,
                            why,
                        ) by {
                            assert(turn_owes(outcome, written, mid, ServeStep::Continue));
                            assert(((more + 1) - 1) as nat == more);
                            assert(served_turns::<S, H>(
                                *handler,
                                id,
                                wire,
                                written,
                                after,
                                more + 1,
                                why,
                            ));
                            assert(turns + (more + 1) == (turns + 1) + more);
                        }
                    }
                    turns = turns + 1;
                }
                if handled < usize::MAX {
                    handled = handled + 1;
                }
            },
            ServeStep::Close(why) => {
                cause = why;
                proof {
                    if reliable && !stop {
                        assert(served_turns::<S, H>(
                            *handler,
                            id,
                            wire,
                            written,
                            conn.transport().written(),
                            0,
                            why,
                        ));
                        assert(turns + 0 == turns);
                    }
                }
                break;
            },
        }
    }
    handler.on_disconnect(conn.id());
    Served { handled, cause }
}

/// A frame that carries a message holds at least its header: what follows
/// it is shorter than what began with it.
pub proof fn lemma_message_takes_bytes(wire: Seq<u8>)
    ensures
        incoming_message(wire) matches Incoming::Message { rest, .. } ==> rest.len() + 4
            <= wire.len(),
{
}

/// The mathematical model of a socket server.
pub struct ServerModel {
    /// The configuration that the server was made with.
    pub config: SocketServerConfig,
    /// The shutdown state of the server.
    pub shutdown: ShutdownModel,
    /// The identifier of the next connection.
    pub next_id: ConnectionId,
    /// The identifiers of the open connections, oldest first.
    pub connections: Seq<ConnectionId>,
}

/// The identifier that follows `id` after `count` connections.
pub open spec fn id_after_many(id: ConnectionId, count: nat) -> ConnectionId
    decreases count,
{
    if count == 0 {
        id
    } else {
        id_after(id_after_many(id, (count - 1) as nat))
    }
}

/// The connections without the last entry for `id`.
pub open spec fn without_connection(connections: Seq<ConnectionId>, id: ConnectionId) -> Seq<
    ConnectionId,
>
    decreases connections.len(),
{
    if connections.len() == 0 {
        connections
    } else if connections.last() == id {
        connections.drop_last()
    } else {
        without_connection(connections.drop_last(), id).push(connections.last())
    }
}

/// Taking off the last entry for `id` removes the entry at its index.
proof fn lemma_without_connection(connections: Seq<ConnectionId>, id: ConnectionId, k: int)
    requires
        0 <= k <= connections.len(),
        forall|j: int| k <= j < connections.len() ==> connections[j] != id,
        k > 0 ==> connections[k - 1] == id,
    ensures
        without_connection(connections, id) == if k > 0 {
            connections.remove(k - 1)
        } else {
            connections
        },
    decreases connections.len(),
{
    if connections.len() > 0 {
        if connections.last() == id {
            assert(k == connections.len());
            assert(connections.drop_last() =~= connections.remove(k - 1));
        } else {
            let shorter = connections.drop_last();
            lemma_without_connection(shorter, id, k);
            if k > 0 {
                assert(shorter.remove(k - 1).push(connections.last()) =~= connections.remove(
                    k - 1,
                ));
            } else {
                assert(shorter.push(connections.last()) =~= connections);
            }
        }
    }
}

/// The server side of the local socket: it numbers the connections that the
/// listener accepts, keeps the list of those that are open, and holds the
/// shutdown state that ends the service.
#[derive(Debug)]
pub struct SocketServer {
    config: SocketServerConfig,
    shutdown: ShutdownState,
    next_id: ConnectionId,
    connections: Vec<ConnectionId>,
}

impl View for SocketServer {
    type V = ServerModel;

    closed spec fn view(&self) -> ServerModel {
        ServerModel {
            config: self.config,
            shutdown: self.shutdown@,
            next_id: self.next_id,
            connections: self.connections@,
        }
    }
}

impl SocketServer {
    /// The path that the server was configured with.
    pub open spec fn path(&self) -> Seq<char> {
        self@.config.path@
    }

    /// A server with the given configuration: open, without connections; the
    /// first connection gets the identifier 1.
    pub fn new(config: SocketServerConfig) -> (server: Self)
        ensures
            server@ == (ServerModel {
                config,
                shutdown: ShutdownModel { shutdown: false, pending: 0 },
                next_id: 1,
                connections: Seq::empty(),
            }),
    {
        SocketServer { config, shutdown: ShutdownState::new(), next_id: 1, connections: Vec::new() }
    }

    /// A server with the default configuration.
    pub fn with_defaults() -> (server: Self)
        ensures
            server@.config.path@ == FALLBACK_SOCKET_PATH@,
            server@.config.max_connections == 100,
            server@.config.connection_timeout == 30000,
            server@.config.cleanup_on_start,
            server@.config.buffer_size == 8192,
            server@.shutdown == (ShutdownModel { shutdown: false, pending: 0 }),
            server@.next_id == 1,
            server@.connections == Seq::<ConnectionId>::empty(),
    {
        SocketServer::new(SocketServerConfig::default())
    }

    /// A server at the given path, with the defaults otherwise.
    pub fn at(path: &str) -> (server: Self)
        ensures
            server@.config.path@ == path@,
            server@.config.max_connections == 100,
            server@.config.connection_timeout == 30000,
            server@.config.cleanup_on_start,
            server@.config.buffer_size == 8192,
            server@.shutdown == (ShutdownModel { shutdown: false, pending: 0 }),
            server@.next_id == 1,
            server@.connections == Seq::<ConnectionId>::empty(),
    {
        SocketServer::new(SocketServerConfig::with_path(path))
    }

    /// Get the socket path.
    pub fn socket_path(&self) -> (path: &str)
        ensures
            path@ == self.path(),
    {
        self.config.path.as_str()
    }

    /// The configuration of the server.
    pub fn config(&self) -> (config: &SocketServerConfig)
        ensures
            *config == self@.config,
    {
        &self.config
    }

    /// Get the number of active connections.
    pub fn connection_count(&self) -> (n: usize)
        ensures
            n == self@.connections.len(),
    {
        self.connections.len()
    }

    /// Takes a stream that the listener has accepted and makes it a
    /// connection with the next identifier. One call yields one connection.
    /// Fails with `Closed`, and changes nothing, once the server is shutting
    /// down.
    pub fn accept<S: ByteStream>(&mut self, stream: S, now: u64) -> (r: Result<Connection<S>>)
        ensures
            final(self)@.config == old(self)@.config,
            final(self)@.shutdown == old(self)@.shutdown,
            old(self)@.shutdown.shutdown ==> (r matches Err(IpcError::Closed)) && final(self)@
                == old(self)@,
            !old(self)@.shutdown.shutdown ==> {
                &&& r matches Ok(conn)
                &&& conn.ident() == old(self)@.next_id
                &&& conn.transport() == stream
                &&& conn.peer().connected_at == now
                &&& final(self)@.next_id == id_after(old(self)@.next_id)
                &&& final(self)@.connections == old(self)@.connections.push(old(self)@.next_id)
            },
    {
        if self.shutdown.is_shutdown() {
            return Err(IpcError::Closed);
        }
        let id = self.next_id;
        self.next_id = if id == u64::MAX {
            0
        } else {
            id + 1
        };
        self.connections.push(id);
        Ok(Connection::new(id, stream, now))
    }

    /// Takes a connection off the list of the open ones.
    pub fn release(&mut self, id: ConnectionId)
        ensures
            final(self)@.config == old(self)@.config,
            final(self)@.shutdown == old(self)@.shutdown,
            final(self)@.next_id == old(self)@.next_id,
            final(self)@.connections == without_connection(old(self)@.connections, id),
    {
        let mut i: usize = self.connections.len();
        while i > 0
            invariant
                i <= self.connections@.len(),
                *self == *old(self),
                forall|j: int| i <= j < self.connections@.len() ==> self.connections@[j] != id,
            decreases i,
        {
            if self.connections[i - 1] == id {
                proof {
                    lemma_without_connection(self.connections@, id, i as int);
                }
                let _ = self.connections.remove(i - 1);
                return ;
            }
            i -= 1;
        }
        proof {
            lemma_without_connection(self.connections@, id, 0);
        }
    }

    /// Shutdown the server.
    pub fn shutdown(&mut self)
        ensures
            final(self)@.config == old(self)@.config,
            final(self)@.shutdown == old(self)@.shutdown.step(ShutdownOp::Shutdown),
            final(self)@.next_id == old(self)@.next_id,
            final(self)@.connections == old(self)@.connections,
    {
        self.shutdown.shutdown();
    }

    /// Check if the server is shutdown.
    pub fn is_shutdown(&self) -> (b: bool)
        ensures
            b == self@.shutdown.shutdown,
    {
        self.shutdown.is_shutdown()
    }

    /// The shutdown state of the server.
    pub fn shutdown_state(&self) -> (state: &ShutdownState)
        ensures
            state@ == self@.shutdown,
    {
        &self.shutdown
    }

    /// Serves the given streams one after the other, each as a connection of
    /// its own, and returns them with what the service wrote. A server that
    /// is shutting down serves none.
    pub fn run<S: ByteStream, H: ConnectionHandler<S>>(
        &mut self,
        streams: Vec<S>,
        handler: &H,
        now: u64,
    ) -> (served: Vec<S>)
        requires
            handler.ready(),
        ensures
            final(self)@.config == old(self)@.config,
            final(self)@.shutdown == old(self)@.shutdown,
            final(self)@.connections == old(self)@.connections,
            old(self)@.shutdown.shutdown ==> served@.len() == 0 && final(self)@ == old(self)@,
            !old(self)@.shutdown.shutdown ==> served@.len() == streams@.len(),
            final(self)@.next_id == id_after_many(old(self)@.next_id, served@.len()),
            forall|i: int|
                0 <= i < served@.len() ==> #[trigger] served_to_end(
                    *handler,
                    id_after_many(old(self)@.next_id, i as nat),
                    streams@[i],
                    served@[i],
                ),
    {
        let mut served: Vec<S> = Vec::new();
        let mut waiting = streams;
        let ghost all = streams@;
        let total = waiting.len();
        if self.shutdown.is_shutdown() {
            return served;
        }
        while waiting.len() > 0
            invariant
                handler.ready(),
                self@.config == old(self)@.config,
                self@.shutdown == old(self)@.shutdown,
                !self@.shutdown.shutdown,
                self@.connections == old(self)@.connections,
                served@.len() + waiting@.len() == all.len(),
                total == all.len(),
                waiting@ == all.skip(served@.len() as int),
                self@.next_id == id_after_many(old(self)@.next_id, served@.len()),
                forall|i: int|
                    0 <= i < served@.len() ==> #[trigger] served_to_end(
                        *handler,
                        id_after_many(old(self)@.next_id, i as nat),
                        all[i],
                        served@[i],
                    ),
            decreases waiting@.len(),
        {
            let stream = waiting.remove(0);
            assert(stream == all[served@.len() as int]);
            assert(waiting@ =~= all.skip(served@.len() as int + 1));
            let ghost before = self@.connections;
            match self.accept(stream, now) {
                Ok(conn) => {
                    let mut conn = conn;
                    let ghost done = served@;
                    let outcome = serve(&mut conn, handler, &self.shutdown);
                    let id = conn.id();
                    self.release(id);
                    assert(before.push(id).drop_last() =~= before);
                    served.push(conn.into_stream());
                    proof {
                        assert forall|i: int| 0 <= i < served@.len() implies #[trigger]
                            served_to_end(
                            *handler,
                            id_after_many(old(self)@.next_id, i as nat),
                            all[i],
                            served@[i],
                        ) by {
                            if i < done.len() {
                                assert(served@[i] == done[i]);
                                assert(served_to_end(
                                    *handler,
                                    id_after_many(old(self)@.next_id, i as nat),
                                    all[i],
                                    done[i],
                                ));
                            } else {
                                assert(service(
                                    *handler,
                                    id_after_many(old(self)@.next_id, i as nat),
                                    false,
                                    all[i],
                                    served@[i],
                                    outcome,
                                ));
                            }
                        }
                    }
                },
                Err(_) => {
                    // The server is not shutting down, so that `accept` succeeds.
                    assert(false);
                },
            }
        }
        served
    }
}

impl GracefulChannel for SocketServer {
    open spec fn shutdown_signalled(&self) -> bool {
        self@.shutdown.shutdown
    }

    open spec fn in_flight(&self) -> nat {
        self@.shutdown.pending
    }

    fn shutdown(&mut self) {
        self.shutdown.shutdown();
    }

    fn is_shutdown(&self) -> (b: bool) {
        self.shutdown.is_shutdown()
    }

    fn drain(&mut self) -> (r: Result<DrainStep>) {
        self.shutdown.wait_for_drain(0, None)
    }

    fn shutdown_timeout(&mut self, waited_ms: u64, timeout_ms: u64) -> (r: Result<DrainStep>) {
        self.shutdown.shutdown();
        self.shutdown.wait_for_drain(waited_ms, Some(timeout_ms))
    }
}

/// The client side of the local socket: one connection to a server.
#[derive(Debug)]
pub struct SocketClient<S> {
    connection: Connection<S>,
}

impl<S: ByteStream> SocketClient<S> {
    /// The connection of the client.
    pub closed spec fn link(&self) -> Connection<S> {
        self.connection
    }

    /// A client over a stream that is connected to a server. The client's
    /// own connection has the identifier 0.
    pub fn new(stream: S, now: u64) -> (client: Self)
        ensures
            client.link().ident() == 0,
            client.link().transport() == stream,
    {
        SocketClient { connection: Connection::new(0, stream, now) }
    }

    /// Send a message to the server.
    pub fn send(&mut self, msg: &Message) -> (r: Result<()>)
        ensures
            final(self).link().ident() == old(self).link().ident(),
            final(self).link().transport().incoming() == old(self).link().transport().incoming(),
            final(self).link().transport().reliable() == old(self).link().transport().reliable(),
            message_sent(
                *msg,
                old(self).link().transport().reliable(),
                old(self).link().transport().written(),
                final(self).link().transport().written(),
                r,
            ),
    {
        self.connection.send(msg)
    }

    /// Receive a message from the server.
    pub fn recv(&mut self) -> (r: Result<Message>)
        ensures
            final(self).link().ident() == old(self).link().ident(),
            final(self).link().transport().written() == old(self).link().transport().written(),
            final(self).link().transport().reliable() == old(self).link().transport().reliable(),
            message_received(
                old(self).link().transport().incoming(),
                old(self).link().transport().reliable(),
                final(self).link().transport().incoming(),
                r,
            ),
    {
        self.connection.recv()
    }

    /// Send a request and wait for the response.
    pub fn request(&mut self, method: &str, params: serde_json::Value) -> (r: Result<
        serde_json::Value,
    >)
        ensures
            final(self).link().ident() == old(self).link().ident(),
            final(self).link().transport().reliable() == old(self).link().transport().reliable(),
            request_made(
                method@,
                params,
                old(self).link().transport().reliable(),
                old(self).link().transport().incoming(),
                final(self).link().transport().incoming(),
                old(self).link().transport().written(),
                final(self).link().transport().written(),
                r,
            ),
    {
        self.connection.request(method, params)
    }

    /// Get the underlying connection.
    pub fn connection(&mut self) -> (c: &mut Connection<S>)
        ensures
            *c == old(self).link(),
            final(self).link() == *final(c),
    {
        &mut self.connection
    }

    /// Takes the client apart and returns its stream.
    pub fn into_stream(self) -> (s: S)
        ensures
            s == self.link().transport(),
    {
        self.connection.into_stream()
    }
}

} // verus!

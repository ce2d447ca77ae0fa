use ipckit::channel::{ByteStream, MemoryStream};
use ipckit::error::{IoErrorKind, IpcError};
use ipckit::graceful::{DrainStep, GracefulChannel, ShutdownState};
use ipckit::socket_server::{
    default_socket_path, pipe_name_for, read_reply, reply_for, serve, serve_step,
    socket_path_for, CloseCause, Connection, ConnectionHandler, ConnectionId,
    ConnectionMetadata, FnHandler, Message, MessageType, ServeStep, Served, SocketClient,
    SocketServer, SocketServerConfig,
};

fn object(entries: Vec<(&str, serde_json::Value)>) -> serde_json::Value {
    let mut map = serde_json::Map::new();
    for (key, value) in entries {
        map.insert(key.to_string(), value);
    }
    serde_json::Value::Object(map)
}

fn empty() -> serde_json::Value {
    object(Vec::new())
}

fn frames(messages: &[Message]) -> Vec<u8> {
    let mut client = SocketClient::new(MemoryStream::new(), 0);
    for message in messages {
        client.send(message).unwrap();
    }
    client.into_stream().output().clone()
}

fn replies(wire: Vec<u8>) -> Vec<Message> {
    let mut client = SocketClient::new(MemoryStream::with_input(wire, 5), 0);
    let mut messages = Vec::new();
    while let Ok(message) = client.recv() {
        messages.push(message);
    }
    messages
}

fn ping_handler() -> FnHandler<impl Fn(ConnectionId, Message) -> Result<Option<Message>, IpcError> + Clone>
{
    FnHandler::new(|_conn, msg: Message| {
        if msg.method().as_deref() == Some("ping") {
            Ok(Some(Message::response(object(vec![("pong", serde_json::Value::from(true))]))))
        } else if msg.msg_type == MessageType::Ping {
            Ok(Some(Message::pong()))
        } else if msg.method().as_deref() == Some("fail") {
            Err(IpcError::InvalidState("no such method".to_string()))
        } else {
            Ok(None)
        }
    })
}

#[test]
fn test_message_creation() {
    let text = Message::text("Hello");
    assert_eq!(text.msg_type, MessageType::Text);
    assert_eq!(text.as_text().as_deref(), Some("Hello"));

    let request = Message::request("ping", empty());
    assert_eq!(request.msg_type, MessageType::Request);
    assert_eq!(request.method().as_deref(), Some("ping"));

    let response = Message::response(object(vec![("pong", serde_json::Value::from(true))]));
    assert_eq!(response.msg_type, MessageType::Response);
    assert!(response.result().is_some());

    let error = Message::error(404, "Not found");
    assert_eq!(error.msg_type, MessageType::Error);
}

#[test]
fn test_message_serialization() {
    let msg = Message::request("test", object(vec![("key", serde_json::Value::from("value"))]));
    let json = msg.encode().unwrap();
    let deserialized: Message = Message::decode(&json).unwrap();

    assert_eq!(deserialized.msg_type, msg.msg_type);
    assert_eq!(deserialized.method(), msg.method());
}

#[test]
fn test_socket_server_config() {
    let config = SocketServerConfig::default();
    assert_eq!(config.max_connections, 100);
    assert!(config.cleanup_on_start);

    let custom = SocketServerConfig::with_path("/tmp/test.sock");
    assert_eq!(custom.path, "/tmp/test.sock");
}

#[test]
fn test_connection_metadata() {
    let metadata = ConnectionMetadata::default();
    assert!(metadata.client_pid.is_none());
    assert!(metadata.client_info.is_none());
}

#[test]
fn test_fn_handler() {
    let handler = FnHandler::new(|_conn, msg: Message| {
        if msg.method().as_deref() == Some("ping") {
            Ok(Some(Message::response(object(vec![("pong", serde_json::Value::from(true))]))))
        } else {
            Ok(None)
        }
    });

    // Test that handler is Clone
    let _handler2 = handler.clone();
}

#[test]
fn messages_have_the_fields_of_their_kind() {
    let text = Message::text("Hello");
    assert_eq!(text.payload, object(vec![("content", serde_json::Value::from("Hello"))]));
    assert_eq!(text.method(), None);

    let request = Message::request("sum", serde_json::Value::from(vec![1, 2]));
    assert_eq!(
        request.payload,
        object(vec![
            ("method", serde_json::Value::from("sum")),
            ("params", serde_json::Value::from(vec![1, 2])),
        ])
    );
    assert_eq!(request.params(), Some(serde_json::Value::from(vec![1, 2])));
    assert_eq!(request.result(), None);

    let response = Message::response(serde_json::Value::Null);
    assert_eq!(response.payload, object(vec![("result", serde_json::Value::Null)]));
    assert_eq!(response.result(), Some(serde_json::Value::Null));

    let error = Message::error(-1, "broken");
    assert_eq!(
        error.payload,
        object(vec![
            ("code", serde_json::Value::from(-1)),
            ("message", serde_json::Value::from("broken")),
        ])
    );

    assert_eq!(Message::ping().msg_type, MessageType::Ping);
    assert_eq!(Message::ping().payload, empty());
    assert_eq!(Message::pong().msg_type, MessageType::Pong);
    assert_eq!(Message::pong().payload, empty());

    let json = Message::json(serde_json::Value::from(3));
    assert_eq!(json.msg_type, MessageType::Text);
    assert_eq!(json.payload, serde_json::Value::from(3));
    assert_eq!(json.as_text(), None);

    let binary = Message::binary(vec![0, 1, 2, 253, 254, 255]);
    assert_eq!(binary.msg_type, MessageType::Binary);
    assert_eq!(binary.payload, object(vec![("data", serde_json::Value::from("AAEC/f7/"))]));
    assert_eq!(binary.as_binary(), Some(vec![0, 1, 2, 253, 254, 255]));
    assert_eq!(Message::binary(Vec::new()).as_binary(), Some(Vec::new()));
    assert_eq!(Message::text("x").as_binary(), None);
    let broken = Message {
        msg_type: MessageType::Binary,
        payload: object(vec![("data", serde_json::Value::from("not base64!"))]),
    };
    assert_eq!(broken.as_binary(), None);
    let copy = binary.clone();
    assert_eq!(copy.payload, binary.payload);
}

#[test]
fn message_kinds_have_lowercase_names() {
    let kinds = [
        (MessageType::Text, "text"),
        (MessageType::Binary, "binary"),
        (MessageType::Request, "request"),
        (MessageType::Response, "response"),
        (MessageType::Error, "error"),
        (MessageType::Ping, "ping"),
        (MessageType::Pong, "pong"),
    ];
    for (kind, name) in kinds {
        assert_eq!(kind.as_str(), name);
        assert_eq!(MessageType::parse(name), Some(kind));
    }
    assert_eq!(MessageType::parse("Text"), None);
    assert_eq!(MessageType::parse(""), None);
    assert_eq!(MessageType::parse("pongs"), None);
}

#[test]
fn messages_are_encoded_as_tagged_objects() {
    let bytes = Message::text("hi").encode().unwrap();
    assert_eq!(
        String::from_utf8(bytes.clone()).unwrap(),
        "{\"msg_type\":\"text\",\"payload\":{\"content\":\"hi\"}}"
    );
    let back = Message::decode(&bytes).unwrap();
    assert_eq!(back.msg_type, MessageType::Text);
    assert_eq!(back.as_text().as_deref(), Some("hi"));

    let decoded = Message::decode(b"{\"payload\": [1], \"msg_type\": \"pong\", \"extra\": 0}").unwrap();
    assert_eq!(decoded.msg_type, MessageType::Pong);
    assert_eq!(decoded.payload, serde_json::Value::from(vec![1]));

    let refused = |bytes: &[u8]| match Message::decode(bytes) {
        Err(IpcError::Deserialization(text)) => text,
        other => panic!("expected a refusal, got {:?}", other.map(|m| m.msg_type)),
    };
    assert_eq!(refused(b"{\"payload\": 1}"), "missing field `msg_type`");
    assert_eq!(refused(b"{\"msg_type\": 5, \"payload\": 1}"), "missing field `msg_type`");
    assert_eq!(refused(b"[\"text\", 1]"), "missing field `msg_type`");
    assert_eq!(refused(b"{\"msg_type\": \"shout\", \"payload\": 1}"), "unknown message type");
    assert_eq!(refused(b"{\"msg_type\": \"text\"}"), "missing field `payload`");
    assert!(!refused(b"{\"msg_type\": \"text\"").is_empty());
    assert!(!refused(b"").is_empty());
}

#[test]
fn envelopes_carry_messages() {
    let message = Message::error(7, "seven");
    let envelope = message.envelope();
    assert_eq!(
        envelope,
        object(vec![
            ("msg_type", serde_json::Value::from("error")),
            ("payload", message.payload.clone()),
        ])
    );
    let back = Message::from_envelope(&envelope).unwrap();
    assert_eq!(back.msg_type, MessageType::Error);
    assert_eq!(back.payload, message.payload);
    assert!(matches!(
        Message::from_envelope(&serde_json::Value::from("text")),
        Err(IpcError::Deserialization(text)) if text == "missing field `msg_type`"
    ));
}

#[test]
fn replies_are_read_by_their_kind() {
    let value = object(vec![("pong", serde_json::Value::from(true))]);
    assert_eq!(read_reply(&Message::response(value.clone())).unwrap(), value);
    assert!(matches!(
        read_reply(&Message { msg_type: MessageType::Response, payload: empty() }),
        Err(IpcError::Deserialization(text)) if text == "Missing result in response"
    ));
    assert!(matches!(
        read_reply(&Message::error(-1, "went wrong")),
        Err(IpcError::Other(text)) if text == "went wrong"
    ));
    assert!(matches!(
        read_reply(&Message { msg_type: MessageType::Error, payload: empty() }),
        Err(IpcError::Other(text)) if text == "Unknown error"
    ));
    for other in [Message::text("x"), Message::ping(), Message::pong(), Message::request("m", empty()), Message::binary(vec![1])] {
        assert!(matches!(
            read_reply(&other),
            Err(IpcError::Deserialization(text)) if text == "Unexpected message type"
        ));
    }
}

#[test]
fn handler_outcomes_become_replies() {
    assert!(reply_for(Ok(None)).is_none());
    let reply = reply_for(Ok(Some(Message::pong()))).unwrap();
    assert_eq!(reply.msg_type, MessageType::Pong);
    let reply = reply_for(Err(IpcError::NotFound("task-3".to_string()))).unwrap();
    assert_eq!(reply.msg_type, MessageType::Error);
    assert_eq!(reply.payload["code"], -1);
    assert_eq!(reply.payload["message"], "Resource not found: task-3");
}

#[test]
fn server_request_reply_scenario() {
    // The client sends its request.
    let mut client = SocketClient::new(MemoryStream::new(), 0);
    client.send(&Message::request("ping", empty())).unwrap();
    let request_wire = client.into_stream().output().clone();

    // The server serves the connection with a handler that answers "ping".
    let mut server = SocketServer::at("/tmp/ipckit-test.sock");
    let handler = ping_handler();
    let mut conn = server.accept(MemoryStream::with_input(request_wire.clone(), 3), 5).unwrap();
    assert_eq!(conn.id(), 1);
    assert_eq!(conn.metadata().connected_at, 5);
    assert_eq!(server.connection_count(), 1);
    let served = serve(&mut conn, &handler, server.shutdown_state());
    assert_eq!(served, Served { handled: 1, cause: CloseCause::PeerClosed });
    server.release(conn.id());
    assert_eq!(server.connection_count(), 0);
    let reply_wire = conn.into_stream().output().clone();

    // The client reads the reply to its request.
    let mut input = MemoryStream::with_input(reply_wire, 2);
    let mut sink = Vec::new();
    assert_eq!(input.read(&mut sink, 0), Ok(0));
    let mut client = SocketClient::new(input, 0);
    let result = client.request("ping", empty()).unwrap();
    assert_eq!(result, object(vec![("pong", serde_json::Value::from(true))]));
    assert_eq!(client.into_stream().output(), &request_wire);
}

#[test]
fn serving_answers_each_message_in_order() {
    let wire = frames(&[
        Message::ping(),
        Message::text("no reply"),
        Message::request("fail", empty()),
        Message::request("ping", empty()),
    ]);
    let mut conn = Connection::new(9, MemoryStream::with_input(wire, 1), 0);
    conn.set_client_info("tester");
    assert_eq!(conn.metadata().client_info.as_deref(), Some("tester"));
    let served = serve(&mut conn, &ping_handler(), &ShutdownState::new());
    assert_eq!(served, Served { handled: 4, cause: CloseCause::PeerClosed });
    assert_eq!(conn.stream().remaining(), 0);
    assert!(matches!(conn.try_recv(), Err(IpcError::WouldBlock)));

    let answers = replies(conn.into_stream().output().clone());
    assert_eq!(answers.len(), 3);
    assert_eq!(answers[0].msg_type, MessageType::Pong);
    assert_eq!(answers[1].msg_type, MessageType::Error);
    assert_eq!(answers[1].payload["code"], -1);
    assert_eq!(answers[1].payload["message"], "Invalid state: no such method");
    assert_eq!(answers[2].msg_type, MessageType::Response);
    assert_eq!(answers[2].result(), Some(object(vec![("pong", serde_json::Value::from(true))])));
}

#[test]
fn serving_stops_at_shutdown_and_at_broken_frames() {
    let wire = frames(&[Message::ping(), Message::ping()]);
    let handler = ping_handler();

    let mut state = ShutdownState::new();
    state.shutdown();
    let mut conn = Connection::new(1, MemoryStream::with_input(wire.clone(), 64), 0);
    assert_eq!(
        serve(&mut conn, &handler, &state),
        Served { handled: 0, cause: CloseCause::Shutdown }
    );
    assert_eq!(conn.stream().remaining(), wire.len());
    assert_eq!(serve_step(&mut conn, &handler, true), ServeStep::Close(CloseCause::Shutdown));
    assert_eq!(serve_step(&mut conn, &handler, false), ServeStep::Continue);
    assert_eq!(serve_step(&mut conn, &handler, false), ServeStep::Continue);
    assert_eq!(serve_step(&mut conn, &handler, false), ServeStep::Close(CloseCause::PeerClosed));

    // A frame that carries no message ends the connection.
    let mut broken = frames(&[Message::ping()]);
    broken.extend_from_slice(&[2, 0, 0, 0, b'{', b'{']);
    broken.extend_from_slice(&frames(&[Message::ping()]));
    let mut conn = Connection::new(1, MemoryStream::with_input(broken, 64), 0);
    assert_eq!(
        serve(&mut conn, &handler, &ShutdownState::new()),
        Served { handled: 1, cause: CloseCause::ReceiveFailed }
    );

    // A reply that is too large to be sent ends the connection, too.
    let big = FnHandler::new(|_id: ConnectionId, _msg: Message| {
        Ok(Some(Message::text(&"x".repeat(17_000_000))))
    });
    let wire = frames(&[Message::ping(), Message::ping()]);
    let mut conn = Connection::new(1, MemoryStream::with_input(wire, 64), 0);
    assert_eq!(
        serve(&mut conn, &big, &ShutdownState::new()),
        Served { handled: 0, cause: CloseCause::SendFailed }
    );
    assert!(conn.stream().output().is_empty());

    // So does a length over the bound, and a stream that ends inside a frame.
    let mut conn = Connection::new(1, MemoryStream::with_input(vec![1, 0, 0, 1, 0, 0], 64), 0);
    assert!(matches!(conn.recv(), Err(IpcError::BufferTooSmall { needed: 16_777_217, got: 16_777_216 })));
    let mut conn = Connection::new(1, MemoryStream::with_input(vec![9, 0, 0, 0, 1], 64), 0);
    assert!(matches!(conn.recv(), Err(IpcError::Io(IoErrorKind::UnexpectedEof))));
}

struct Refusing;

impl ConnectionHandler<MemoryStream> for Refusing {
    fn ready(&self) -> bool {
        true
    }

    fn greets(&self, _id: ConnectionId) -> bool {
        false
    }

    fn replies(
        &self,
        _id: ConnectionId,
        _msg: Message,
        _outcome: Result<Option<Message>, IpcError>,
    ) -> bool {
        true
    }

    fn on_connect(&self, _conn: &mut Connection<MemoryStream>) -> Result<(), IpcError> {
        Err(IpcError::PermissionDenied("no".to_string()))
    }

    fn on_message(
        &self,
        _conn: &mut Connection<MemoryStream>,
        _msg: Message,
    ) -> Result<Option<Message>, IpcError> {
        Ok(Some(Message::pong()))
    }

    fn on_disconnect(&self, _conn_id: ConnectionId) {}
}

#[test]
fn refused_connection_is_not_served() {
    let wire = frames(&[Message::ping()]);
    let mut conn = Connection::new(1, MemoryStream::with_input(wire.clone(), 64), 0);
    assert_eq!(
        serve(&mut conn, &Refusing, &ShutdownState::new()),
        Served { handled: 0, cause: CloseCause::Refused }
    );
    assert_eq!(conn.stream().remaining(), wire.len());
    assert!(conn.stream().output().is_empty());
}

#[test]
fn server_numbers_connections_and_shuts_down() {
    let mut server = SocketServer::with_defaults();
    assert_eq!(server.socket_path(), "/tmp/ipckit.sock");
    assert_eq!(server.config().buffer_size, 8192);
    assert!(!server.is_shutdown());

    let first = server.accept(MemoryStream::new(), 0).unwrap();
    let second = server.accept(MemoryStream::new(), 0).unwrap();
    let third = server.accept(MemoryStream::new(), 0).unwrap();
    assert_eq!((first.id(), second.id(), third.id()), (1, 2, 3));
    assert_eq!(server.connection_count(), 3);
    server.release(second.id());
    server.release(42);
    assert_eq!(server.connection_count(), 2);

    let wire = frames(&[Message::ping()]);
    let served = server.run(
        vec![MemoryStream::with_input(wire.clone(), 64), MemoryStream::with_input(wire.clone(), 64)],
        &ping_handler(),
        7,
    );
    assert_eq!(served.len(), 2);
    for stream in &served {
        assert_eq!(replies(stream.output().clone())[0].msg_type, MessageType::Pong);
    }
    assert_eq!(server.connection_count(), 2);
    assert_eq!(server.accept(MemoryStream::new(), 0).unwrap().id(), 6);

    SocketServer::shutdown(&mut server);
    assert!(server.is_shutdown());
    assert!(matches!(server.accept(MemoryStream::new(), 0), Err(IpcError::Closed)));
    assert!(server.run(vec![MemoryStream::with_input(wire, 64)], &ping_handler(), 7).is_empty());
    assert_eq!(server.connection_count(), 3);
    assert!(matches!(GracefulChannel::drain(&mut server), Ok(DrainStep::Drained)));
    assert!(matches!(server.shutdown_timeout(0, 10), Ok(DrainStep::Drained)));
}

#[test]
fn endpoint_names_are_resolved() {
    assert_eq!(default_socket_path(None), "/tmp/ipckit.sock");
    assert_eq!(default_socket_path(Some("/run/user/1000")), "/run/user/1000/ipckit.sock");
    assert_eq!(socket_path_for("/var/run/app.sock"), "/var/run/app.sock");
    assert_eq!(socket_path_for("app"), "/tmp/app.sock");
    assert_eq!(socket_path_for(""), "/tmp/.sock");
    assert_eq!(pipe_name_for("app"), "\\\\.\\pipe\\app");
    assert_eq!(pipe_name_for("\\\\.\\pipe\\app"), "\\\\.\\pipe\\app");

    assert!(SocketServerConfig::with_path("/tmp/a.sock").removes_stale_endpoint());
    assert!(!SocketServerConfig::with_path("\\\\.\\pipe\\a").removes_stale_endpoint());
    let mut config = SocketServerConfig::default();
    assert_eq!(config.connection_timeout, 30_000);
    config.cleanup_on_start = false;
    assert!(!config.removes_stale_endpoint());
    assert_eq!(ConnectionMetadata::new(9).connected_at, 9);
}

#[test]
fn server_keeps_its_configuration() {
    let config = SocketServerConfig {
        path: String::from("/tmp/other.sock"),
        max_connections: 3,
        connection_timeout: 250,
        cleanup_on_start: false,
        buffer_size: 512,
    };
    let mut server = SocketServer::new(config);
    let _ = server.accept(MemoryStream::new(), 0).unwrap();
    let kept = server.config();
    assert_eq!(kept.path, "/tmp/other.sock");
    assert_eq!(kept.max_connections, 3);
    assert_eq!(kept.connection_timeout, 250);
    assert!(!kept.cleanup_on_start);
    assert_eq!(kept.buffer_size, 512);
    assert_eq!(server.socket_path(), "/tmp/other.sock");

    let named = SocketServer::at("/tmp/named.sock");
    assert_eq!(named.config().path, "/tmp/named.sock");
    assert_eq!(named.config().max_connections, 100);
    assert_eq!(named.config().connection_timeout, 30000);
    assert!(named.config().cleanup_on_start);
    assert_eq!(named.config().buffer_size, 8192);
}

use forge::callback::{Invocation, PacketCallback};
use forge::error::ForgeError;
use forge::gate::ConnectionGate;
use forge::session::{CloseKind, ConnectionSession, ForgeHandler};
use forge::transport::{
    answer_handshake, failure, on_close, on_message, on_request, server_settings,
};

fn callback() -> PacketCallback {
    PacketCallback::new(0x77, 0x88)
}

fn admitted() -> ForgeHandler {
    ConnectionGate::new(callback()).connection_made().unwrap()
}

fn session() -> ConnectionSession {
    admitted().on_request(&vec!["forge".to_string()]).unwrap()
}

fn request(lines: &[&[u8]]) -> ws::Request {
    let mut text = Vec::new();
    text.extend_from_slice(b"GET / HTTP/1.1\r\nHost: 127.0.0.1:8005\r\n");
    text.extend_from_slice(b"Connection: Upgrade\r\nUpgrade: websocket\r\n");
    text.extend_from_slice(b"Sec-WebSocket-Version: 13\r\n");
    for line in lines {
        text.extend_from_slice(line);
        text.extend_from_slice(b"\r\n");
    }
    text.extend_from_slice(b"\r\n");
    ws::Request::parse(&text).unwrap().unwrap()
}

const KEY: &[u8] = b"Sec-WebSocket-Key: q16eN37NCfVwUChPvBdk4g==";

#[test]
fn settings_carry_the_ceiling_of_one() {
    let settings = server_settings();
    let defaults = ws::Settings::default();
    assert_eq!(settings.max_connections, 1);
    assert_eq!(settings.queue_size, defaults.queue_size);
    assert_eq!(settings.max_fragment_size, defaults.max_fragment_size);
    assert_eq!(settings.panic_on_protocol, defaults.panic_on_protocol);
    assert_eq!(settings.encrypt_server, defaults.encrypt_server);
}

#[test]
fn request_offering_the_token_is_accepted_and_the_token_echoed() {
    let req = request(&[KEY, b"Sec-WebSocket-Protocol: forge"]);
    let (session, response) = on_request(&admitted(), &req).unwrap();
    assert_eq!(response.protocol().unwrap(), Some("forge"));
    assert_eq!(response.status(), 101);
    assert_eq!(session.callback(), callback());
    assert_eq!(session.protocol(), "forge");
}

#[test]
fn accepted_response_is_the_built_one_with_the_token_selected() {
    let req = request(&[KEY, b"Sec-WebSocket-Protocol: chat,forge"]);
    let fresh = ws::Response::from_request(&req).unwrap();
    let (_, response) = on_request(&admitted(), &req).unwrap();
    assert_eq!(fresh.protocol().unwrap(), None);
    assert_eq!(response.protocol().unwrap(), Some("forge"));
    assert_eq!(response.status(), fresh.status());
    assert_eq!(response.reason(), fresh.reason());
    assert_eq!(response.key().unwrap(), fresh.key().unwrap());
    assert_eq!(response.body(), fresh.body());
    assert_eq!(response.headers().len(), fresh.headers().len() + 1);
}

#[test]
fn token_is_matched_whole_in_a_request() {
    for header in [
        &b"Sec-WebSocket-Protocol: Forge"[..],
        b"Sec-WebSocket-Protocol: forge2",
        b"Sec-WebSocket-Protocol: xforge",
        b"Sec-WebSocket-Protocol: ",
        b"Sec-WebSocket-Protocol: for ge",
        b"Sec-WebSocket-Protocol: chat, FORGE",
    ] {
        let err = on_request(&admitted(), &request(&[KEY, header])).unwrap_err();
        assert!(matches!(err.kind, ws::ErrorKind::Protocol));
        assert_eq!(err.details, "'forge' protocol not found");
    }
    for header in [
        &b"Sec-WebSocket-Protocol: forge"[..],
        b"Sec-WebSocket-Protocol:   forge  ",
        b"Sec-WebSocket-Protocol: forge,chat",
        b"Sec-WebSocket-Protocol: chat,forge",
        b"Sec-WebSocket-Protocol: a, b, forge, c",
    ] {
        let (_, response) = on_request(&admitted(), &request(&[KEY, header])).unwrap();
        assert_eq!(response.protocol().unwrap(), Some("forge"));
    }
}

#[test]
fn request_offering_the_token_among_others_is_accepted() {
    let req = request(&[KEY, b"Sec-WebSocket-Protocol: chat, forge ,superchat"]);
    let (_, response) = on_request(&admitted(), &req).unwrap();
    assert_eq!(response.protocol().unwrap(), Some("forge"));
}

#[test]
fn request_built_by_a_client_is_accepted() {
    let url = url::Url::parse("ws://127.0.0.1:8005/").unwrap();
    let mut req = ws::Request::from_url(&url).unwrap();
    req.add_protocol("forge");
    let (_, response) = on_request(&admitted(), &req).unwrap();
    assert_eq!(response.protocol().unwrap(), Some("forge"));
    assert_eq!(
        response.key().unwrap().as_slice(),
        req.hashed_key().unwrap().as_bytes()
    );
}

#[test]
fn request_without_protocols_is_refused() {
    let req = request(&[KEY]);
    let err = on_request(&admitted(), &req).unwrap_err();
    assert!(matches!(err.kind, ws::ErrorKind::Protocol));
    assert_eq!(err.details, "'forge' protocol not found");
}

#[test]
fn request_offering_other_protocols_is_refused() {
    let req = request(&[KEY, b"Sec-WebSocket-Protocol: chat, Forge, forge2"]);
    let err = on_request(&admitted(), &req).unwrap_err();
    assert!(matches!(err.kind, ws::ErrorKind::Protocol));
    assert_eq!(err.details, "'forge' protocol not found");
}

#[test]
fn refused_connection_fails_with_a_protocol_error() {
    let mut gate = ConnectionGate::new(callback());
    let _first = gate.connection_made().unwrap();
    let refusal = gate.connection_made().unwrap_err();
    let err = failure(refusal);
    assert!(matches!(err.kind, ws::ErrorKind::Protocol));
    assert_eq!(err.details, "connection limit reached");
}

#[test]
fn every_failure_of_the_core_becomes_a_protocol_error_with_its_text() {
    let all = [
        ForgeError::MissingCallback,
        ForgeError::AtCapacity,
        ForgeError::ProtocolNotFound,
        ForgeError::TextNotSupported,
        ForgeError::TransportFailed,
        ForgeError::SignalFailed,
    ];
    for error in all {
        let err = failure(error);
        assert!(matches!(err.kind, ws::ErrorKind::Protocol));
        assert_eq!(err.details, error.details());
    }
}

#[test]
fn request_with_unreadable_protocols_fails_as_the_transport_says() {
    let req = request(&[KEY, b"Sec-WebSocket-Protocol: forge, \xff\xfe"]);
    let err = on_request(&admitted(), &req).unwrap_err();
    assert!(matches!(err.kind, ws::ErrorKind::Encoding(_)));
}

#[test]
fn request_without_key_fails_as_the_transport_says() {
    let req = request(&[b"Sec-WebSocket-Protocol: forge"]);
    let err = on_request(&admitted(), &req).unwrap_err();
    assert!(matches!(err.kind, ws::ErrorKind::Protocol));
    assert_eq!(err.details, "Unable to parse WebSocket key.");
}

fn built(lines: &[&[u8]]) -> ws::Result<ws::Response> {
    ws::Response::from_request(&request(lines))
}

#[test]
fn answer_goes_by_the_offer_it_is_given() {
    let offered = vec!["forge".to_string()];
    let (session, response) = answer_handshake(&admitted(), &offered, built(&[KEY])).unwrap();
    assert_eq!(response.protocol().unwrap(), Some("forge"));
    assert_eq!(response.status(), 101);
    assert_eq!(session.callback(), callback());
    let err = answer_handshake(&admitted(), &Vec::new(), built(&[KEY])).unwrap_err();
    assert!(matches!(err.kind, ws::ErrorKind::Protocol));
    assert_eq!(err.details, "'forge' protocol not found");
}

#[test]
fn answer_hands_on_the_error_of_a_response_that_was_not_built() {
    let offered = vec!["chat".to_string(), "forge".to_string()];
    let err = answer_handshake(&admitted(), &offered, built(&[])).unwrap_err();
    assert!(matches!(err.kind, ws::ErrorKind::Protocol));
    assert_eq!(err.details, "Unable to parse WebSocket key.");
    let custom = ws::Error::new(ws::ErrorKind::Capacity, "no room for a response");
    let err = answer_handshake(&admitted(), &offered, Err(custom)).unwrap_err();
    assert!(matches!(err.kind, ws::ErrorKind::Capacity));
    assert_eq!(err.details, "no room for a response");
}

#[test]
fn answer_without_the_token_does_not_depend_on_the_response() {
    let offered = vec!["chat".to_string()];
    let err = answer_handshake(&admitted(), &offered, built(&[])).unwrap_err();
    assert_eq!(err.details, "'forge' protocol not found");
}

#[test]
fn answer_replaces_a_protocol_the_response_already_names() {
    let mut response = built(&[KEY]).unwrap();
    response.set_protocol("chat");
    let offered = vec!["forge".to_string()];
    let (_, response) = answer_handshake(&admitted(), &offered, Ok(response)).unwrap();
    assert_eq!(response.protocol().unwrap(), Some("forge"));
}

#[test]
fn binary_transport_message_is_delivered() {
    let call = on_message(&session(), ws::Message::Binary(vec![1, 2, 3])).unwrap();
    assert_eq!(call, Some(Invocation { func: 0x88, userdata: 0x77, payload: vec![1, 2, 3] }));
}

#[test]
fn empty_binary_transport_message_is_delivered() {
    let call = on_message(&session(), ws::Message::binary(Vec::new())).unwrap();
    assert_eq!(call, Some(Invocation { func: 0x88, userdata: 0x77, payload: Vec::new() }));
}

#[test]
fn binary_transport_message_without_function_is_dropped() {
    let gate_callback = PacketCallback { userdata: 0x77, func: None };
    let s = ConnectionGate::new(gate_callback)
        .connection_made()
        .unwrap()
        .on_request(&vec!["forge".to_string()])
        .unwrap();
    assert_eq!(on_message(&s, ws::Message::Binary(vec![1, 2, 3])).unwrap(), None);
}

#[test]
fn text_transport_message_is_a_protocol_error() {
    let err = on_message(&session(), ws::Message::text("hello")).unwrap_err();
    assert!(matches!(err.kind, ws::ErrorKind::Protocol));
    assert_eq!(err.details, "Text data not supported by protocol");
}

#[test]
fn transport_close_codes_are_told_apart() {
    assert_eq!(on_close(session(), ws::CloseCode::Normal), CloseKind::Normal);
    assert_eq!(on_close(session(), ws::CloseCode::Away), CloseKind::Away);
    assert_eq!(on_close(session(), ws::CloseCode::Status), CloseKind::NoStatus);
    assert_eq!(on_close(session(), ws::CloseCode::Protocol), CloseKind::Failure);
    assert_eq!(on_close(session(), ws::CloseCode::Abnormal), CloseKind::Failure);
    assert_eq!(on_close(session(), ws::CloseCode::Other(4000)), CloseKind::Failure);
    assert_eq!(on_close(session(), ws::CloseCode::Other(1000)), CloseKind::Normal);
}

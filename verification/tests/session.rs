use rcon_client::client::Client;
use rcon_client::errors::RconError;
use rcon_client::frame::FrameAssembler;
use rcon_client::frame::FrameProgress;
use rcon_client::message::Packet;
use rcon_client::message::PacketType;

/// A mock server: decodes one request frame, checks it against the expected
/// kind and body, and replies with a frame of the given kind and body whose
/// id echoes the request's id.
fn mock_server_reply(
    request: &[u8],
    expect_wire_type: i32,
    expect_body: &str,
    reply_type: PacketType,
    reply_body: &str,
) -> Vec<u8> {
    let request = Packet::decode(request.to_vec()).unwrap();
    assert_eq!(request.packet_type, expect_wire_type);
    assert_eq!(request.body, expect_body);
    Packet::with_id(reply_type, reply_body, request.id).unwrap().encode()
}

#[test]
fn new_client_has_default_timeout() {
    let client = Client::new();
    assert!(client.connected);
    assert_eq!(client.timeout_secs, 60);
}

#[test]
fn set_timout_changes_subsequent_timeout() {
    let mut client = Client::new();
    client.set_timout(1);
    assert_eq!(client.timeout_secs, 1);
    assert!(client.connected);
}

#[test]
fn auth_failure_convention() {
    // A reply with id -1 means rejected credentials, whatever the body says.
    let client = Client::new();
    let (_, id) = client.start_auth("wrong password").unwrap();
    let refusal = Packet::with_id(PacketType::AuthResponse, "", -1).unwrap().encode();
    assert_eq!(client.finish_auth(id, refusal).unwrap_err(), RconError::AuthError);
    let refusal = Packet::with_id(PacketType::AuthResponse, "denied", -1).unwrap().encode();
    assert_eq!(client.finish_auth(id, refusal).unwrap_err(), RconError::AuthError);
}

#[test]
fn correlation_mismatch_never_succeeds() {
    let client = Client::new();
    let pairs: Vec<(i32, i32)> = vec![(10, 11), (0, 1), (-5, 5), (i32::MAX, i32::MIN)];
    for (request_id, reply_id) in pairs {
        let reply = Packet::with_id(PacketType::ResponseValue, "stale", reply_id)
            .unwrap()
            .encode();
        assert_eq!(
            client.finish_command(request_id, reply).unwrap_err(),
            RconError::CorrelationError
        );
    }
    // The same holds for an authentication reply whose id is neither the
    // request's nor the failure convention's -1.
    let reply = Packet::with_id(PacketType::AuthResponse, "", 8).unwrap().encode();
    assert_eq!(client.finish_auth(7, reply).unwrap_err(), RconError::CorrelationError);
    // For a command reply, even id -1 is a plain correlation failure.
    let reply = Packet::with_id(PacketType::ResponseValue, "", -1).unwrap().encode();
    assert_eq!(client.finish_command(7, reply).unwrap_err(), RconError::CorrelationError);
}

#[test]
fn malformed_reply_surfaces() {
    let client = Client::new();
    assert_eq!(
        client.finish_command(1, vec![1, 2, 3]).unwrap_err(),
        RconError::MalformedPacket
    );
}

#[test]
fn timeout_invalidates_connection() {
    let mut client = Client::new();
    client.set_timout(1);
    let (_, id) = client.start_command("status").unwrap();
    // The transport never produced a reply within the deadline: the request
    // is abandoned and the connection is invalidated.
    assert_eq!(client.on_timeout(), RconError::TimeoutError);
    // A subsequent call fails fast instead of attempting I/O again.
    assert_eq!(client.start_command("status").unwrap_err(), RconError::NotConnected);
    let reply = Packet::with_id(PacketType::ResponseValue, "late", id).unwrap().encode();
    assert_eq!(client.finish_command(id, reply).unwrap_err(), RconError::NotConnected);
}

#[test]
fn disconnect_stops_all_operations() {
    let mut client = Client::new();
    client.disconnect();
    assert_eq!(client.start_auth("pw").unwrap_err(), RconError::NotConnected);
    assert_eq!(client.start_command("c").unwrap_err(), RconError::NotConnected);
    assert_eq!(client.finish_auth(1, vec![]).unwrap_err(), RconError::NotConnected);
    // Disconnecting twice is harmless.
    client.disconnect();
    assert!(!client.connected);
}

#[test]
fn oversized_request_rejected_before_io() {
    let client = Client::new();
    let body = "x".repeat(4087);
    assert_eq!(client.start_command(&body).unwrap_err(), RconError::SizeExceeded);
    assert_eq!(client.start_auth(&body).unwrap_err(), RconError::SizeExceeded);
}

#[test]
fn end_to_end_auth_and_command() {
    let client = Client::new();

    // The server accepts `Auth` with body "secret" and echoes the id back
    // with an empty body.
    let (request, id) = client.start_auth("secret").unwrap();
    let reply = mock_server_reply(&request, 3, "secret", PacketType::AuthResponse, "");
    assert_eq!(client.finish_auth(id, reply).unwrap(), "");

    // The same server answers `ExecCommand` "status" with "OK", delivered in
    // chunks as a TCP stream would.
    let (request, id) = client.start_command("status").unwrap();
    let reply = mock_server_reply(&request, 2, "status", PacketType::ResponseValue, "OK");
    let mut assembler = FrameAssembler::new();
    let mut delivered = 0;
    while delivered < reply.len() {
        match assembler.progress().unwrap() {
            FrameProgress::Need(n) => {
                let next = (delivered + n.min(3)).min(reply.len());
                assembler.push(&reply[delivered..next]);
                delivered = next;
            }
            FrameProgress::Ready => break,
        }
    }
    assert_eq!(assembler.progress(), Ok(FrameProgress::Ready));
    assert_eq!(client.finish_command(id, assembler.take_frame()).unwrap(), "OK");
}

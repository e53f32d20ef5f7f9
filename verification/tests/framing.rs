use rcon_client::errors::RconError;
use rcon_client::frame::FrameAssembler;
use rcon_client::frame::FrameProgress;
use rcon_client::message::Packet;
use rcon_client::message::PacketType;

#[test]
fn fresh_assembler_wants_header() {
    let assembler = FrameAssembler::new();
    assert_eq!(assembler.progress(), Ok(FrameProgress::Need(4)));
}

#[test]
fn partial_read_assembly() {
    // A 20-byte frame delivered across three separate chunks must still
    // come out as one correctly decoded packet.
    let p = Packet::with_id(PacketType::Execcommand, "status", 5).unwrap();
    let bytes = p.encode();
    assert_eq!(bytes.len(), 20);

    let mut assembler = FrameAssembler::new();
    assembler.push(&bytes[0..5]);
    assert_eq!(assembler.progress(), Ok(FrameProgress::Need(15)));
    assembler.push(&bytes[5..15]);
    assert_eq!(assembler.progress(), Ok(FrameProgress::Need(5)));
    assembler.push(&bytes[15..20]);
    assert_eq!(assembler.progress(), Ok(FrameProgress::Ready));

    let q = Packet::decode(assembler.take_frame()).unwrap();
    assert_eq!(q.id, 5);
    assert_eq!(q.packet_type, 2);
    assert_eq!(q.body, "status");
    assert_eq!(q.size, 16);
}

#[test]
fn assembly_one_byte_at_a_time() {
    let p = Packet::with_id(PacketType::Auth, "pw", 3).unwrap();
    let bytes = p.encode();
    let mut assembler = FrameAssembler::new();
    for i in 0..bytes.len() {
        assert_ne!(assembler.progress(), Ok(FrameProgress::Ready));
        assembler.push(&bytes[i..i + 1]);
    }
    assert_eq!(assembler.progress(), Ok(FrameProgress::Ready));
    let q = Packet::decode(assembler.take_frame()).unwrap();
    assert_eq!(q.body, "pw");
}

#[test]
fn assembler_rejects_undersized_declaration() {
    let mut assembler = FrameAssembler::new();
    assembler.push(&5i32.to_le_bytes());
    assert_eq!(assembler.progress(), Err(RconError::MalformedPacket));
}

#[test]
fn assembler_rejects_oversized_declaration() {
    let mut assembler = FrameAssembler::new();
    assembler.push(&4097i32.to_le_bytes());
    assert_eq!(assembler.progress(), Err(RconError::MalformedPacket));
    let mut assembler = FrameAssembler::new();
    assembler.push(&(-1i32).to_le_bytes());
    assert_eq!(assembler.progress(), Err(RconError::MalformedPacket));
}

#[test]
fn assembler_rejects_overrun() {
    let p = Packet::with_id(PacketType::ResponseValue, "", 1).unwrap();
    let mut bytes = p.encode();
    bytes.push(0);
    let mut assembler = FrameAssembler::new();
    assembler.push(&bytes);
    assert_eq!(assembler.progress(), Err(RconError::MalformedPacket));
}

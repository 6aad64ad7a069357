use battle_royale_os::net::protocol::{handle_packet, join_response, process_incoming, PacketAction, GAME_PORT};
use battle_royale_os::protocol::codec::{read_i16, read_i32, read_u16, read_u32, write_i16, write_i32, write_u16, write_u32};
use battle_royale_os::protocol::packets::{ClientInput, Packet, PlayerState, WorldStateDelta};

#[test]
fn u32_roundtrip_little_endian() {
    let mut buf = [0u8; 4];
    write_u32(&mut buf, 0x1234_5678);
    assert_eq!(buf, [0x78, 0x56, 0x34, 0x12]);
    assert_eq!(read_u32(&buf), 0x1234_5678);
}

#[test]
fn i32_negative_roundtrip() {
    let mut buf = [0u8; 4];
    write_i32(&mut buf, -2);
    assert_eq!(buf, [0xFE, 0xFF, 0xFF, 0xFF]);
    assert_eq!(read_i32(&buf), -2);
}

#[test]
fn u16_and_i16_roundtrip() {
    let mut buf = [0u8; 2];
    write_u16(&mut buf, 0xBEEF);
    assert_eq!(buf, [0xEF, 0xBE]);
    assert_eq!(read_u16(&buf), 0xBEEF);
    write_i16(&mut buf, -300);
    assert_eq!(read_i16(&buf), -300);
    assert_eq!(buf, [0xD4, 0xFE]);
}

fn sample_input() -> ClientInput {
    ClientInput {
        player_id: 3,
        sequence: 0x0102_0304,
        forward: 1,
        strafe: -1,
        jump: true,
        crouch: false,
        fire: true,
        build: false,
        exit_bus: true,
        yaw: -9000,
        pitch: 4500,
    }
}

#[test]
fn client_input_wire_layout() {
    let bytes = sample_input().encode();
    assert_eq!(bytes.len(), 16);
    assert_eq!(bytes[0], 3);
    assert_eq!(&bytes[1..5], &[0x04, 0x03, 0x02, 0x01]);
    assert_eq!(bytes[5], 1);
    assert_eq!(bytes[6], 0xFF);
    // jump (bit 0), fire (bit 2), exit_bus (bit 4)
    assert_eq!(bytes[7], 0b0001_0101);
    let back = ClientInput::decode(&bytes).unwrap();
    assert_eq!(back, sample_input());
}

#[test]
fn client_input_decode_too_short() {
    assert!(ClientInput::decode(&[0u8; 15]).is_none());
}

#[test]
fn player_state_new_has_full_health() {
    let p = PlayerState::new(7);
    assert_eq!(p.player_id, 7);
    assert_eq!(p.health, 100);
    assert_eq!(p.x, 0);
    assert_eq!(p.state, 0);
}

#[test]
fn join_request_encoding() {
    let p = Packet::JoinRequest { name: String::from("Bob") };
    let bytes = p.encode();
    assert_eq!(bytes, vec![1, 3, b'B', b'o', b'b']);
    match Packet::decode(&bytes) {
        Some(Packet::JoinRequest { name }) => assert_eq!(name, "Bob"),
        _ => panic!("expected a join request"),
    }
}

#[test]
fn join_request_invalid_utf8_is_replaced() {
    match Packet::decode(&[1, 2, 0xFF, b'a']) {
        Some(Packet::JoinRequest { name }) => assert_eq!(name, "\u{FFFD}a"),
        _ => panic!("expected a join request"),
    }
}

#[test]
fn join_request_truncated_name_is_rejected() {
    assert!(Packet::decode(&[1, 5, b'a']).is_none());
}

#[test]
fn ping_roundtrip() {
    let bytes = Packet::Ping { timestamp: 0x0102_0304_0506_0708 }.encode();
    assert_eq!(bytes, vec![5, 8, 7, 6, 5, 4, 3, 2, 1]);
    match Packet::decode(&bytes) {
        Some(Packet::Ping { timestamp }) => assert_eq!(timestamp, 0x0102_0304_0506_0708),
        _ => panic!("expected a ping"),
    }
    match Packet::decode(&Packet::Pong { timestamp: 9 }.encode()) {
        Some(Packet::Pong { timestamp }) => assert_eq!(timestamp, 9),
        _ => panic!("expected a pong"),
    }
}

#[test]
fn decode_rejects_empty_and_unknown() {
    assert!(Packet::decode(&[]).is_none());
    assert!(Packet::decode(&[9, 1, 2]).is_none());
    assert!(Packet::decode(&[2]).is_none());
}

fn sample_delta() -> WorldStateDelta {
    let mut p = PlayerState::new(4);
    p.x = -65536;
    p.yaw = 1234;
    p.state = 1;
    WorldStateDelta { tick: 77, player_count: 1, players: vec![p], storm_x: 10, storm_z: -20, storm_radius: 5000 }
}

#[test]
fn world_delta_roundtrip() {
    let d = sample_delta();
    let bytes = d.encode();
    assert_eq!(bytes.len(), 17 + 24);
    assert_eq!(&bytes[0..4], &[77, 0, 0, 0]);
    assert_eq!(bytes[4], 1);
    let back = WorldStateDelta::decode(&bytes).unwrap();
    assert_eq!(back.tick, 77);
    assert_eq!(back.storm_z, -20);
    assert_eq!(back.storm_radius, 5000);
    assert_eq!(back.players.len(), 1);
    assert_eq!(back.players[0], d.players[0]);
}

#[test]
fn world_delta_stops_at_last_complete_record() {
    let mut bytes = sample_delta().encode();
    bytes[4] = 3;
    let back = WorldStateDelta::decode(&bytes).unwrap();
    assert_eq!(back.player_count, 3);
    assert_eq!(back.players.len(), 1);
    assert!(WorldStateDelta::decode(&bytes[..16]).is_none());
}

#[test]
fn packet_world_delta_roundtrip() {
    let bytes = Packet::WorldStateDelta(sample_delta()).encode();
    assert_eq!(bytes[0], 4);
    match Packet::decode(&bytes) {
        Some(Packet::WorldStateDelta(d)) => assert_eq!(d.players.len(), 1),
        _ => panic!("expected a world delta"),
    }
}

#[test]
fn packets_dispatch_by_role() {
    match handle_packet(Packet::ClientInput(sample_input()), true) {
        PacketAction::ApplyInput { player_id, input } => {
            assert_eq!(player_id, 3);
            assert_eq!(input, sample_input());
        }
        _ => panic!("expected input"),
    }
    assert!(matches!(handle_packet(Packet::WorldStateDelta(sample_delta()), true), PacketAction::Ignore));
    assert!(matches!(handle_packet(Packet::WorldStateDelta(sample_delta()), false), PacketAction::ApplyDelta(_)));
    assert!(matches!(handle_packet(Packet::Ping { timestamp: 1 }, false), PacketAction::Ignore));
    match process_incoming(&[1, 2, b'h', b'i'], true) {
        PacketAction::AdmitPlayer { name } => assert_eq!(name, "hi"),
        _ => panic!("expected a join"),
    }
    assert!(matches!(process_incoming(&[2, 9], false), PacketAction::SetLocalPlayer { player_id: 9 }));
    assert!(matches!(process_incoming(&[42], false), PacketAction::Ignore));
}

#[test]
fn join_response_bytes() {
    assert_eq!(join_response(12), vec![2, 12]);
    assert_eq!(GAME_PORT, 5000);
}

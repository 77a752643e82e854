use minecrab::codec::{MinecraftCodec, RawPacket};
use minecrab::connection::{transition, ClientConnection, ConnectionError};
use minecrab::error::{DecodeError, EncodeError};
use minecrab::schema::{Record, Value};
use minecrab::state::{ConnectionState, PacketDirection};
use minecrab::types::{MetadataField, ObjectData, Position, Serializable, Slot};
use minecrab::varint::{write_varint, VarInt};
use minecrab::versions::{decode_packet, encode_packet, Packet, PacketName, ProtocolVersion, Registry, VersionTable};
use minecrab::wire::write_varstring;
use minecrab::wrapper::{AbstractPacket, EventKind, PositionFlags, SoundPitch};

fn table(v: ProtocolVersion) -> VersionTable {
    VersionTable::for_protocol(v).unwrap()
}

fn raw(id: i32, data: Vec<u8>) -> RawPacket {
    RawPacket { id, data }
}

fn string_bytes(s: &str) -> Vec<u8> {
    let mut out = Vec::new();
    write_varstring(&mut out, s);
    out
}

fn login_success_payload() -> Vec<u8> {
    let mut data = string_bytes("0f1e2d3c-4b5a-6978-8796-a5b4c3d2e1f0");
    data.extend(string_bytes("steve"));
    data
}

#[test]
fn tables_exist_for_versions_with_layouts() {
    assert_eq!(table(ProtocolVersion::Proto1_8).protocol, 47);
    assert!(VersionTable::for_protocol(ProtocolVersion::Proto1_7).is_none());
    let reg = Registry::standard();
    assert_eq!(reg.table(340).unwrap().protocol, 340);
    assert!(reg.table(999).is_none());
    assert_eq!(ProtocolVersion::Proto1_12_2.number(), 340);
}

#[test]
fn keep_alive_decodes_per_version() {
    let (p, used) = decode_packet(&table(ProtocolVersion::Proto1_8), &raw(0x00, vec![42]), ConnectionState::Play, PacketDirection::Client).unwrap();
    assert_eq!(p.name, PacketName::KeepAlive_47);
    assert_eq!(used, 1);
    assert!(matches!(p.values[0], Value::Int(42)));
    let (p, _) = decode_packet(&table(ProtocolVersion::Proto1_7_6), &raw(0x00, vec![0, 0, 0, 42]), ConnectionState::Play, PacketDirection::Client).unwrap();
    assert_eq!(p.name, PacketName::KeepAlive_5);
    assert!(matches!(p.values[0], Value::Int(42)));
    let (p, _) = decode_packet(&table(ProtocolVersion::Proto1_12_2), &raw(0x1f, vec![0, 0, 0, 0, 0, 0, 0, 42]), ConnectionState::Play, PacketDirection::Client).unwrap();
    assert_eq!(p.name, PacketName::KeepAlive_340);
}

#[test]
fn unmapped_id_is_reported_with_coordinates() {
    let e = decode_packet(&table(ProtocolVersion::Proto1_8), &raw(0x7f, vec![]), ConnectionState::Login, PacketDirection::Client).unwrap_err();
    assert_eq!(e, DecodeError::Unmapped { id: 0x7f, state: ConnectionState::Login, direction: PacketDirection::Client });
}

#[test]
fn trailing_bytes_are_counted_not_rejected() {
    let (_, used) = decode_packet(&table(ProtocolVersion::Proto1_8), &raw(0x00, vec![42, 1, 2]), ConnectionState::Play, PacketDirection::Client).unwrap();
    assert_eq!(used, 1);
}

#[test]
fn short_payload_is_decode_error() {
    let e = decode_packet(&table(ProtocolVersion::Proto1_7_6), &raw(0x00, vec![0, 0]), ConnectionState::Play, PacketDirection::Client).unwrap_err();
    assert_eq!(e, DecodeError::ShortRead);
}

#[test]
fn conditional_fields_follow_their_predicate() {
    let t = table(ProtocolVersion::Proto1_8);
    // combat event 2: player id, entity id and message are present, duration is not
    let mut data = vec![2, 9, 0, 0, 0, 7];
    data.extend(string_bytes("gone"));
    let (p, used) = decode_packet(&t, &raw(0x42, data.clone()), ConnectionState::Play, PacketDirection::Client).unwrap();
    assert_eq!(used, data.len());
    assert!(matches!(p.values[1], Value::Absent));
    assert!(matches!(p.values[2], Value::Int(9)));
    assert!(matches!(p.values[3], Value::Int(7)));
    assert!(matches!(&p.values[4], Value::Str(s) if s == "gone"));
    let back = encode_packet(&t, &p, ConnectionState::Play, PacketDirection::Client).unwrap();
    assert_eq!(back.id, 0x42);
    assert_eq!(back.data, data);
    // combat event 0: nothing follows
    let (p, used) = decode_packet(&t, &raw(0x42, vec![0]), ConnectionState::Play, PacketDirection::Client).unwrap();
    assert_eq!(used, 1);
    assert!(p.values[1..].iter().all(|v| matches!(v, Value::Absent)));
}

#[test]
fn count_fields_are_written_from_sequence_length() {
    let t = table(ProtocolVersion::Proto1_7_6);
    let rec = minecrab::types::BlockChangeRecord_5 { block_meta: 1, block_id: 2, y: 3, z: 4, x: 5 };
    let p = Packet {
        name: PacketName::MultiBlockChange_5,
        values: vec![
            Value::Int(1),
            Value::Int(2),
            Value::Int(99),
            Value::Int(4),
            Value::Array(vec![Record::BlockChange5(rec)]),
        ],
    };
    let out = encode_packet(&t, &p, ConnectionState::Play, PacketDirection::Client).unwrap();
    assert_eq!(out.id, 0x22);
    assert_eq!(&out.data[8..10], &[0, 1]);
    let (back, used) = decode_packet(&t, &out, ConnectionState::Play, PacketDirection::Client).unwrap();
    assert_eq!(used, out.data.len());
    assert!(matches!(&back.values[4], Value::Array(rs) if rs.len() == 1 && rs[0] == Record::BlockChange5(rec)));
}

#[test]
fn encode_needs_a_table_entry() {
    let t = table(ProtocolVersion::Proto1_8);
    let p = Packet { name: PacketName::KeepAlive_47, values: vec![Value::Int(1)] };
    let e = encode_packet(&t, &p, ConnectionState::Login, PacketDirection::Server).unwrap_err();
    assert_eq!(e, EncodeError::NotInTable { protocol: 47, state: ConnectionState::Login, direction: PacketDirection::Server });
}

#[test]
fn block_change_positions_normalize() {
    let t = table(ProtocolVersion::Proto1_8);
    let pos = Position { x: -10, y: 64, z: 20 };
    let mut data = Vec::new();
    pos.write_to_versioned(&mut data, 47);
    write_varint(&mut data, 0x10);
    let (p, _) = decode_packet(&t, &raw(0x23, data), ConnectionState::Play, PacketDirection::Client).unwrap();
    match AbstractPacket::from_packet(p) {
        Some(AbstractPacket::BlockChange { location, kind }) => {
            assert_eq!(location, pos);
            assert_eq!(kind, 0x10);
        },
        other => panic!("unexpected {:?}", other),
    }
    let t5 = table(ProtocolVersion::Proto1_7_6);
    let data = vec![0, 0, 0, 3, 200, 0xff, 0xff, 0xff, 0xfe, 0x05, 0x00];
    let (p, _) = decode_packet(&t5, &raw(0x23, data), ConnectionState::Play, PacketDirection::Client).unwrap();
    match AbstractPacket::from_packet(p) {
        Some(AbstractPacket::BlockChange { location, kind }) => {
            assert_eq!(location, Position { x: 3, y: 200, z: -2 });
            assert_eq!(kind, 5);
        },
        other => panic!("unexpected {:?}", other),
    }
}

#[test]
fn relative_moves_share_one_unit() {
    let coarse = Packet { name: PacketName::RelEntityMove_47, values: vec![Value::Int(7), Value::Int(-3), Value::Int(0), Value::Int(1), Value::Bool(true)] };
    let fine = Packet { name: PacketName::RelEntityMove_107, values: vec![Value::Int(7), Value::Int(-384), Value::Int(0), Value::Int(128), Value::Bool(false)] };
    for (p, og) in [(coarse, true), (fine, false)] {
        match AbstractPacket::from_packet(p) {
            Some(AbstractPacket::EntityRelativeMove { entity_id, dx, dy, dz, on_ground }) => {
                assert_eq!((entity_id, dx, dy, dz), (7, -384, 0, 128));
                assert_eq!(on_ground, Some(og));
            },
            other => panic!("unexpected {:?}", other),
        }
    }
}

#[test]
fn sound_effects_keep_their_pitch_form() {
    let p = Packet {
        name: PacketName::NamedSoundEffect_5,
        values: vec![Value::Str("step".to_string()), Value::Int(8), Value::Int(16), Value::Int(-8), Value::Int(0x3f800000), Value::Int(63)],
    };
    match AbstractPacket::from_packet(p) {
        Some(AbstractPacket::NamedSoundEffect { sound_name, sound_category, x, y, z, volume, pitch }) => {
            assert_eq!(sound_name, "step");
            assert_eq!(sound_category, None);
            assert_eq!((x, y, z), (8, 16, -8));
            assert_eq!(volume, 0x3f800000);
            assert_eq!(pitch, SoundPitch::Scaled63(63));
        },
        other => panic!("unexpected {:?}", other),
    }
}

#[test]
fn position_flags_reject_unknown_bits() {
    assert_eq!(PositionFlags::from_bits(0x1f), Some(PositionFlags(0x1f)));
    assert_eq!(PositionFlags::from_bits(0x20), None);
    let p = Packet {
        name: PacketName::Position_107,
        values: vec![Value::Int(1), Value::Int(2), Value::Int(3), Value::Int(4), Value::Int(5), Value::Int(0x03), Value::Int(77)],
    };
    match AbstractPacket::from_packet(p) {
        Some(AbstractPacket::PositionLookClientBound { x, flags, teleport_id, .. }) => {
            assert_eq!(x, 1);
            assert_eq!(flags, Some(PositionFlags(3)));
            assert_eq!(teleport_id, Some(77));
        },
        other => panic!("unexpected {:?}", other),
    }
}

#[test]
fn untranslated_packets_have_no_event() {
    let p = Packet { name: PacketName::UpdateTime_5, values: vec![Value::Int(1), Value::Int(2)] };
    assert!(AbstractPacket::from_packet(p).is_none());
    let bad = Packet { name: PacketName::KeepAlive_47, values: vec![Value::Str("x".to_string())] };
    assert!(AbstractPacket::from_packet(bad).is_none());
    let bad_state = Packet {
        name: PacketName::SetProtocol_5,
        values: vec![Value::Int(47), Value::Str("h".to_string()), Value::Int(25565), Value::Int(9)],
    };
    assert!(AbstractPacket::from_packet(bad_state).is_none());
}

#[test]
fn outgoing_events_fail_without_encoding() {
    assert_eq!(AbstractPacket::ClientCommand { action_id: 0 }.to_packet(100).unwrap_err(), EncodeError::NoEncoding { protocol: 100, event: EventKind::ClientCommand });
    assert_eq!(AbstractPacket::Disconnect { reason: "x".to_string() }.to_packet(47).unwrap_err(), EncodeError::NoEncoding { protocol: 47, event: EventKind::Disconnect });
    let p = AbstractPacket::ClientCommand { action_id: 1 }.to_packet(5).unwrap();
    assert_eq!(p.name, PacketName::ClientCommand_5);
    let p = AbstractPacket::ClientCommand { action_id: 1 }.to_packet(340).unwrap();
    assert_eq!(p.name, PacketName::ClientCommand_107);
    let p = AbstractPacket::KeepAlive { keep_alive_id: 42 }.to_packet(340).unwrap();
    assert_eq!(p.name, PacketName::KeepAlive_340);
    assert!(matches!(p.values[0], Value::Int(42)));
}

#[test]
fn stance_goes_out_only_to_old_servers() {
    let ev = |_: ()| AbstractPacket::PositionLookServerBound { x: 1, y: 2, head_y: 3, z: 4, yaw: 5, pitch: 6, on_ground: true };
    let old = ev(()).to_packet(5).unwrap();
    assert_eq!(old.name, PacketName::PositionLook_5);
    assert_eq!(old.values.len(), 7);
    assert!(matches!(old.values[2], Value::Int(3)));
    let new = ev(()).to_packet(47).unwrap();
    assert_eq!(new.name, PacketName::PositionLook_47);
    assert_eq!(new.values.len(), 6);
    assert!(matches!(new.values[2], Value::Int(4)));
}

#[test]
fn handshake_and_login_success_drive_the_state() {
    assert_eq!(
        transition(ConnectionState::Handshaking, &AbstractPacket::SetProtocol {
            protocol_version: VarInt(47),
            server_host: "localhost".to_string(),
            server_port: 25565,
            next_state: ConnectionState::Login,
        }),
        ConnectionState::Login
    );
    let success = AbstractPacket::LoginSuccess { uuid: "u".to_string(), username: "n".to_string() };
    assert_eq!(transition(ConnectionState::Login, &success), ConnectionState::Play);
    assert_eq!(transition(ConnectionState::Play, &AbstractPacket::KeepAlive { keep_alive_id: 1 }), ConnectionState::Play);
}

#[test]
fn state_machine_login_flow() {
    let mut c = ClientConnection::new(ProtocolVersion::Proto1_8).unwrap();
    assert_eq!(c.state(), ConnectionState::Handshaking);
    c.write(AbstractPacket::SetProtocol {
        protocol_version: VarInt(47),
        server_host: "localhost".to_string(),
        server_port: 25565,
        next_state: ConnectionState::Login,
    })
    .unwrap();
    assert_eq!(c.state(), ConnectionState::Login);
    // a play-only packet before login success is fatal
    let err = c.read(&raw(0x21, vec![0; 16])).unwrap_err();
    assert_eq!(err, ConnectionError::Decode(DecodeError::Unmapped { id: 0x21, state: ConnectionState::Login, direction: PacketDirection::Client }));
    assert_eq!(c.state(), ConnectionState::Login);
    let ev = c.read(&raw(0x02, login_success_payload())).unwrap();
    assert!(matches!(ev, Some(AbstractPacket::LoginSuccess { .. })));
    assert_eq!(c.state(), ConnectionState::Play);
    // in play an unknown packet is dropped, not fatal
    assert!(c.read(&raw(0x7e, vec![])).unwrap().is_none());
}

#[test]
fn compression_request_is_unsupported() {
    let mut c = ClientConnection::new(ProtocolVersion::Proto1_8).unwrap();
    c.write(AbstractPacket::SetProtocol {
        protocol_version: VarInt(47),
        server_host: "h".to_string(),
        server_port: 1,
        next_state: ConnectionState::Login,
    })
    .unwrap();
    assert_eq!(c.read(&raw(0x03, vec![0x80, 0x02])).unwrap_err(), ConnectionError::Unsupported);
}

#[test]
fn keep_alive_echo_end_to_end() {
    for (version, ka_in, ka_payload) in [
        (ProtocolVersion::Proto1_8, 0x00, vec![42u8]),
        (ProtocolVersion::Proto1_7_6, 0x00, vec![0, 0, 0, 42]),
        (ProtocolVersion::Proto1_12_2, 0x1f, vec![0, 0, 0, 0, 0, 0, 0, 42]),
    ] {
        let mut c = ClientConnection::new(version).unwrap();
        let hs = c
            .write(AbstractPacket::SetProtocol {
                protocol_version: VarInt(version.number()),
                server_host: "localhost".to_string(),
                server_port: 25565,
                next_state: ConnectionState::Login,
            })
            .unwrap();
        let (hs_raw, _) = MinecraftCodec::read(&hs).unwrap();
        assert_eq!(hs_raw.id, 0x00);
        let ls = c.write(AbstractPacket::LoginStart { username: "steve".to_string() }).unwrap();
        let (ls_raw, _) = MinecraftCodec::read(&ls).unwrap();
        assert_eq!(ls_raw.id, 0x00);
        assert_eq!(ls_raw.data, string_bytes("steve"));
        // the server confirms the login
        let frame = MinecraftCodec::write(&raw(0x02, login_success_payload()));
        let (p, _) = MinecraftCodec::read(&frame).unwrap();
        assert!(matches!(c.read(&p).unwrap(), Some(AbstractPacket::LoginSuccess { .. })));
        assert_eq!(c.state(), ConnectionState::Play);
        // the server sends a keep-alive with id 42, the client answers with it
        let frame = MinecraftCodec::write(&raw(ka_in, ka_payload.clone()));
        let (p, _) = MinecraftCodec::read(&frame).unwrap();
        let id = match c.read(&p).unwrap() {
            Some(AbstractPacket::KeepAlive { keep_alive_id }) => keep_alive_id,
            other => panic!("unexpected {:?}", other),
        };
        assert_eq!(id, 42);
        let answer = c.write(AbstractPacket::KeepAlive { keep_alive_id: id }).unwrap();
        let (back, used) = MinecraftCodec::read(&answer).unwrap();
        assert_eq!(used, answer.len());
        assert_eq!(back.data, ka_payload);
        let t = VersionTable::for_protocol(version).unwrap();
        let (pk, _) = decode_packet(&t, &back, ConnectionState::Play, PacketDirection::Server).unwrap();
        assert!(matches!(pk.values[0], Value::Int(42)));
    }
}

#[test]
fn play_only_sends_fail_before_play() {
    let mut c = ClientConnection::new(ProtocolVersion::Proto1_8).unwrap();
    let err = c.write(AbstractPacket::ClientCommand { action_id: 0 }).unwrap_err();
    assert_eq!(
        err,
        ConnectionError::Encode(EncodeError::NotInTable { protocol: 47, state: ConnectionState::Handshaking, direction: PacketDirection::Server })
    );
    assert_eq!(c.state(), ConnectionState::Handshaking);
    let err = c.write(AbstractPacket::Disconnect { reason: "bye".to_string() }).unwrap_err();
    assert_eq!(err, ConnectionError::Encode(EncodeError::NoEncoding { protocol: 47, event: EventKind::Disconnect }));
    assert!(ClientConnection::new(ProtocolVersion::Proto1_10).is_none());
}

#[test]
fn object_data_velocity_follows_nonzero_value() {
    let with = ObjectData { data: 5, velocity: Some((1, -1, 2)) };
    let mut out = Vec::new();
    with.write_to(&mut out);
    assert_eq!(out, vec![0, 0, 0, 5, 0, 1, 0xff, 0xff, 0, 2]);
    assert_eq!(ObjectData::read_from(&out, 0), Ok((with, 10)));
    let without = ObjectData { data: 0, velocity: None };
    let mut out = Vec::new();
    without.write_to(&mut out);
    assert_eq!(ObjectData::read_from(&out, 0), Ok((without, 4)));
}

fn handshake(next_state: ConnectionState) -> AbstractPacket {
    AbstractPacket::SetProtocol {
        protocol_version: VarInt(47),
        server_host: "localhost".to_string(),
        server_port: 25565,
        next_state,
    }
}

#[test]
fn handshake_only_leads_to_status_or_login() {
    assert_eq!(transition(ConnectionState::Handshaking, &handshake(ConnectionState::Status)), ConnectionState::Status);
    assert_eq!(transition(ConnectionState::Handshaking, &handshake(ConnectionState::Play)), ConnectionState::Handshaking);
    assert_eq!(transition(ConnectionState::Play, &handshake(ConnectionState::Handshaking)), ConnectionState::Play);
    assert_eq!(transition(ConnectionState::Play, &handshake(ConnectionState::Login)), ConnectionState::Play);
    assert_eq!(
        handshake(ConnectionState::Play).to_packet(47).unwrap_err(),
        EncodeError::InvalidNextState { next_state: ConnectionState::Play }
    );
    let mut c = ClientConnection::new(ProtocolVersion::Proto1_8).unwrap();
    assert_eq!(
        c.write(handshake(ConnectionState::Handshaking)).unwrap_err(),
        ConnectionError::Encode(EncodeError::InvalidNextState { next_state: ConnectionState::Handshaking })
    );
    assert_eq!(c.state(), ConnectionState::Handshaking);
    for n in [0, 3] {
        let p = Packet {
            name: PacketName::SetProtocol_5,
            values: vec![Value::Int(47), Value::Str("h".to_string()), Value::Int(1), Value::Int(n)],
        };
        assert!(AbstractPacket::from_packet(p).is_none());
    }
}

#[test]
fn handshake_and_login_start_bytes_at_1_8() {
    let mut c = ClientConnection::new(ProtocolVersion::Proto1_8).unwrap();
    let frame = c.write(handshake(ConnectionState::Login)).unwrap();
    let (p, _) = MinecraftCodec::read(&frame).unwrap();
    let mut expected = vec![0x2f, 0x09];
    expected.extend_from_slice(b"localhost");
    expected.extend_from_slice(&[0x63, 0xdd, 0x02]);
    assert_eq!(p.id, 0x00);
    assert_eq!(p.data, expected);
    assert_eq!(c.state(), ConnectionState::Login);
    let frame = c.write(AbstractPacket::LoginStart { username: "bob".to_string() }).unwrap();
    let (p, _) = MinecraftCodec::read(&frame).unwrap();
    assert_eq!(p.id, 0x00);
    assert_eq!(p.data, vec![0x03, 0x62, 0x6f, 0x62]);
    assert_eq!(c.state(), ConnectionState::Login);
}

#[test]
fn chunk_bulk_counts_come_from_lengths() {
    let t = table(ProtocolVersion::Proto1_7_6);
    let p = Packet {
        name: PacketName::MapChunkBulk_5,
        values: vec![Value::Int(0), Value::Int(5), Value::Bool(true), Value::Bytes(vec![1, 2]), Value::Array(vec![])],
    };
    let raw_out = encode_packet(&t, &p, ConnectionState::Play, PacketDirection::Client).unwrap();
    assert_eq!(raw_out.id, 0x26);
    assert_eq!(raw_out.data, vec![0x00, 0x00, 0x00, 0x00, 0x00, 0x02, 0x01, 0x01, 0x02]);
}

#[test]
fn boss_bar_omits_fields_whose_condition_fails() {
    let t = table(ProtocolVersion::Proto1_12_2);
    let p = Packet {
        name: PacketName::BossBar_107,
        values: vec![
            Value::U128(7),
            Value::Int(1),
            Value::Str("title".to_string()),
            Value::Int(0),
            Value::Int(2),
            Value::Int(3),
            Value::Int(4),
        ],
    };
    let raw_out = encode_packet(&t, &p, ConnectionState::Play, PacketDirection::Client).unwrap();
    assert_eq!(raw_out.id, 0x0c);
    assert_eq!(raw_out.data.len(), 17);
    assert_eq!(raw_out.data[16], 0x01);
    let (back, used) = decode_packet(&t, &raw_out, ConnectionState::Play, PacketDirection::Client).unwrap();
    assert_eq!(used, 17);
    assert!(back.values[2..].iter().all(|v| matches!(v, Value::Absent)));
}

#[test]
fn keep_alive_id_zero_round_trips_at_1_8() {
    let t = table(ProtocolVersion::Proto1_8);
    let (p, used) = decode_packet(&t, &raw(0x00, vec![0x2a, 0x00, 0x00]), ConnectionState::Play, PacketDirection::Client).unwrap();
    assert_eq!(used, 1);
    let out = encode_packet(&t, &p, ConnectionState::Play, PacketDirection::Server).unwrap();
    assert_eq!(out.id, 0x00);
    assert_eq!(out.data, vec![0x2a]);
    let e = decode_packet(&t, &raw(0x26, vec![]), ConnectionState::Login, PacketDirection::Client).unwrap_err();
    assert_eq!(e, DecodeError::Unmapped { id: 0x26, state: ConnectionState::Login, direction: PacketDirection::Client });
}

#[test]
fn slots_decode_and_encode() {
    let t = table(ProtocolVersion::Proto1_8);
    let data = vec![0x05, 0x00, 0x02, 0x01, 0x16, 0x01, 0x00, 0x00, 0xff, 0xff];
    let (p, used) = decode_packet(&t, &raw(0x04, data.clone()), ConnectionState::Play, PacketDirection::Client).unwrap();
    assert_eq!(p.name, PacketName::EntityEquipment_47);
    assert_eq!(used, data.len());
    match &p.values[2] {
        Value::Slot(s) => {
            assert_eq!(s.item_id, 278);
            assert_eq!(s.item_count, Some(1));
            assert_eq!(s.item_damage, Some(0));
            assert!(s.data.is_none());
        },
        other => panic!("unexpected {:?}", other),
    }
    let out = encode_packet(&t, &p, ConnectionState::Play, PacketDirection::Client).unwrap();
    assert_eq!(out.data, data);
    let with_nbt = vec![0x05, 0x00, 0x02, 0x01, 0x16, 0x01, 0x00, 0x00, 0x00, 0x02, 0xaa, 0xbb];
    let (p, _) = decode_packet(&t, &raw(0x04, with_nbt.clone()), ConnectionState::Play, PacketDirection::Client).unwrap();
    assert!(matches!(&p.values[2], Value::Slot(s) if s.data == Some(vec![0xaa, 0xbb])));
    assert_eq!(encode_packet(&t, &p, ConnectionState::Play, PacketDirection::Client).unwrap().data, with_nbt);
    let empty = vec![0x05, 0x00, 0x02, 0xff, 0xff];
    let (p, used) = decode_packet(&t, &raw(0x04, empty), ConnectionState::Play, PacketDirection::Client).unwrap();
    assert_eq!(used, 5);
    assert!(matches!(&p.values[2], Value::Slot(s) if s.item_id == -1 && s.item_count.is_none()));
    let bad = vec![0x05, 0x00, 0x02, 0x01, 0x16, 0x01, 0x00, 0x00, 0xff, 0xfe];
    let e = decode_packet(&t, &raw(0x04, bad), ConnectionState::Play, PacketDirection::Client).unwrap_err();
    assert_eq!(e, DecodeError::InvalidLength);
}

#[test]
fn malformed_slot_is_not_encoded() {
    let t = table(ProtocolVersion::Proto1_8);
    let p = Packet {
        name: PacketName::EntityEquipment_47,
        values: vec![
            Value::Int(5),
            Value::Int(2),
            Value::Slot(Slot { item_id: 3, item_count: None, item_damage: None, data: None }),
        ],
    };
    assert_eq!(encode_packet(&t, &p, ConnectionState::Play, PacketDirection::Client).unwrap_err(), EncodeError::Unencodable);
}

#[test]
fn entity_metadata_decodes_and_encodes() {
    let t = table(ProtocolVersion::Proto1_8);
    let data = vec![0x07, 0x00, 0x05, 0x41, 0x00, 0x00, 0x00, 0x09, 0x7f];
    let (p, used) = decode_packet(&t, &raw(0x1c, data.clone()), ConnectionState::Play, PacketDirection::Client).unwrap();
    assert_eq!(p.name, PacketName::EntityMetadata_47);
    assert_eq!(used, data.len());
    match &p.values[1] {
        Value::Meta(m) => {
            assert_eq!(m.entries.len(), 2);
            assert_eq!(m.entries[0].index, 0);
            assert!(matches!(m.entries[0].value, MetadataField::Byte(5)));
            assert_eq!(m.entries[1].index, 1);
            assert!(matches!(m.entries[1].value, MetadataField::Int(9)));
            assert_eq!(m.entries[1].value.get_type(), 2);
        },
        other => panic!("unexpected {:?}", other),
    }
    let out = encode_packet(&t, &p, ConnectionState::Play, PacketDirection::Client).unwrap();
    assert_eq!(out.data, data);
    let bad = vec![0x07, 0xc3, 0x00, 0x7f];
    let e = decode_packet(&t, &raw(0x1c, bad), ConnectionState::Play, PacketDirection::Client).unwrap_err();
    assert_eq!(e, DecodeError::InvalidDiscriminant);
    let unterminated = vec![0x07, 0x00, 0x05];
    let e = decode_packet(&t, &raw(0x1c, unterminated), ConnectionState::Play, PacketDirection::Client).unwrap_err();
    assert_eq!(e, DecodeError::ShortRead);
}

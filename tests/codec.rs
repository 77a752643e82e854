use minecrab::codec::{MinecraftCodec, RawPacket};
use minecrab::decoders::{decode_0x2, decode_0x9};
use minecrab::error::{DecodeError, FramingError};
use minecrab::types::{
    BlockChangeRecord_5, EntityAnimation, Position, PositionIBI, PositionIII, PositionISI,
    Serializable, ExplosionRecord_5, ChunkMetadata,
};
use minecrab::varint::{
    read_varint, read_varlong, varint_len, write_varint, write_varlong, VarInt,
};
use minecrab::wire::{read_varstring, write_varstring};

fn varint_bytes(v: i32) -> Vec<u8> {
    let mut out = Vec::new();
    write_varint(&mut out, v);
    out
}

#[test]
fn varint_round_trip_edge_values() {
    for v in [0, 1, 127, 128, 255, 300, 16383, 16384, 2097151, i32::MAX, i32::MIN, -1, -128] {
        let bytes = varint_bytes(v);
        assert_eq!(bytes.len(), varint_len(v), "length of {v}");
        let (back, end) = read_varint(&bytes, 0).unwrap();
        assert_eq!(back, v);
        assert_eq!(end, bytes.len());
    }
}

#[test]
fn varint_known_encodings() {
    assert_eq!(varint_bytes(0), vec![0x00]);
    assert_eq!(varint_bytes(1), vec![0x01]);
    assert_eq!(varint_bytes(127), vec![0x7f]);
    assert_eq!(varint_bytes(128), vec![0x80, 0x01]);
    assert_eq!(varint_bytes(300), vec![0xac, 0x02]);
    assert_eq!(varint_bytes(2147483647), vec![0xff, 0xff, 0xff, 0xff, 0x07]);
    assert_eq!(varint_bytes(-1), vec![0xff, 0xff, 0xff, 0xff, 0x0f]);
    assert_eq!(varint_bytes(i32::MIN), vec![0x80, 0x80, 0x80, 0x80, 0x08]);
}

#[test]
fn varint_len_by_range() {
    assert_eq!(varint_len(0), 1);
    assert_eq!(varint_len(127), 1);
    assert_eq!(varint_len(128), 2);
    assert_eq!(varint_len(16383), 2);
    assert_eq!(varint_len(16384), 3);
    assert_eq!(varint_len(2097152), 4);
    assert_eq!(varint_len(268435456), 5);
    assert_eq!(varint_len(-1), 5);
}

#[test]
fn varint_reads_at_offset_and_ignores_rest() {
    let buf = vec![0x09, 0xac, 0x02, 0x55];
    assert_eq!(read_varint(&buf, 1), Ok((300, 3)));
}

#[test]
fn varint_truncated_input_is_short_read() {
    assert_eq!(read_varint(&[0x80], 0), Err(DecodeError::ShortRead));
    assert_eq!(read_varint(&[], 0), Err(DecodeError::ShortRead));
}

#[test]
fn varint_stops_after_five_bytes() {
    let buf = vec![0xff, 0xff, 0xff, 0xff, 0xff, 0x01];
    let (v, end) = read_varint(&buf, 0).unwrap();
    assert_eq!(end, 5);
    assert_eq!(v, -1);
}

#[test]
fn varlong_round_trip_non_negative() {
    for v in [0i64, 1, 127, 128, 1 << 40, i64::MAX] {
        let mut out = Vec::new();
        write_varlong(&mut out, v);
        let (back, end) = read_varlong(&out, 0).unwrap();
        assert_eq!(back, v);
        assert_eq!(end, out.len());
    }
}

#[test]
fn varlong_negative_needs_ten_bytes_but_reader_takes_nine() {
    let mut out = Vec::new();
    write_varlong(&mut out, -1);
    assert_eq!(out.len(), 10);
    let (v, end) = read_varlong(&out, 0).unwrap();
    assert_eq!(end, 9);
    assert_eq!(v, i64::MAX);
}

#[test]
fn varstring_round_trip() {
    let mut out = Vec::new();
    write_varstring(&mut out, "héllo");
    assert_eq!(out[0], 6);
    let (s, end) = read_varstring(&out, 0).unwrap();
    assert_eq!(s, "héllo");
    assert_eq!(end, out.len());
}

#[test]
fn varstring_errors() {
    assert_eq!(read_varstring(&[0x02, 0xff, 0xfe], 0), Err(DecodeError::InvalidUtf8));
    assert_eq!(read_varstring(&[0x05, b'a'], 0), Err(DecodeError::ShortRead));
    assert_eq!(read_varstring(&[0xff, 0xff, 0xff, 0xff, 0x0f], 0), Err(DecodeError::InvalidLength));
}

#[test]
fn frame_round_trip() {
    for (id, data) in [(0, vec![1u8, 2, 3]), (-1, vec![]), (0x46, vec![7u8; 300])] {
        let p = RawPacket { id, data: data.clone() };
        let mut bytes = MinecraftCodec::write(&p);
        let frame_len = bytes.len();
        bytes.extend_from_slice(&[9, 9]);
        let (back, used) = MinecraftCodec::read(&bytes).unwrap();
        assert_eq!(back.id, id);
        assert_eq!(back.data, data);
        assert_eq!(used, frame_len);
    }
}

#[test]
fn frame_layout_is_length_id_payload() {
    let bytes = MinecraftCodec::write(&RawPacket { id: 0x21, data: vec![0xaa, 0xbb] });
    assert_eq!(bytes, vec![0x03, 0x21, 0xaa, 0xbb]);
}

#[test]
fn frame_errors() {
    assert_eq!(MinecraftCodec::read(&[]).unwrap_err(), FramingError::Truncated);
    assert_eq!(MinecraftCodec::read(&[0x05, 0x01, 0x02]).unwrap_err(), FramingError::Truncated);
    assert_eq!(MinecraftCodec::read(&[0x00, 0x01]).unwrap_err(), FramingError::BadLength);
    assert_eq!(MinecraftCodec::read(&[0xff, 0xff, 0xff, 0xff, 0x0f, 0x00]).unwrap_err(), FramingError::BadLength);
}

#[test]
fn position_round_trip_both_layouts() {
    let cases = [(0, 0, 0), (1, 2, 3), (-1, 255, -1), (33554431, 4095, -33554432), (-33554432, 0, 33554431)];
    for (x, y, z) in cases {
        let p = Position { x, y, z };
        assert_eq!(Position::unpack(p.pack(340), 340), p);
    }
    let cases_new = [(0, 0, 0), (1, 2, 3), (-1, -1, -1), (33554431, 2047, -33554432), (-5, -2048, 7)];
    for (x, y, z) in cases_new {
        let p = Position { x, y, z };
        assert_eq!(Position::unpack(p.pack(441), 441), p);
    }
}

#[test]
fn position_layouts_differ() {
    let p = Position { x: 1, y: 2, z: 3 };
    let old = p.pack(340);
    let new = p.pack(441);
    assert_ne!(old, new);
    assert_eq!(old, (1i64 << 38) | (2 << 26) | 3);
    assert_eq!(new, (1i64 << 38) | (3 << 12) | 2);
    assert_ne!(Position::unpack(old, 441), p);
}

#[test]
fn position_wire_form_is_big_endian() {
    let p = Position { x: 1, y: 2, z: 3 };
    let mut out = Vec::new();
    p.write_to_versioned(&mut out, 47);
    assert_eq!(out.len(), 8);
    let (back, end) = Position::read_from_versioned(&out, 0, 47).unwrap();
    assert_eq!(back, p);
    assert_eq!(end, 8);
    assert_eq!(Position::read_from_versioned(&out[..7], 0, 47), Err(DecodeError::ShortRead));
}

#[test]
fn legacy_positions_convert() {
    assert_eq!(Position::from(PositionIBI { x: 1, y: 200, z: -3 }), Position { x: 1, y: 200, z: -3 });
    assert_eq!(Position::from(PositionISI { x: 1, y: -2, z: 3 }), Position { x: 1, y: -2, z: 3 });
    assert_eq!(Position::from(PositionIII { x: 4, y: 5, z: 6 }), Position { x: 4, y: 5, z: 6 });
}

#[test]
fn block_change_record_bits() {
    let v: u32 = (0x3 << 28) | (0x5 << 24) | (64 << 16) | (0x123 << 4) | 0x7;
    let r = BlockChangeRecord_5::from_u32(v);
    assert_eq!(r, BlockChangeRecord_5 { block_meta: 7, block_id: 0x123, y: 64, z: 5, x: 3 });
    assert_eq!(r.to_u32(), v);
    let mut out = Vec::new();
    r.write_to(&mut out);
    assert_eq!(out, v.to_be_bytes().to_vec());
    assert_eq!(BlockChangeRecord_5::read_from(&out, 0), Ok((r, 4)));
}

#[test]
fn records_read_and_write() {
    let e = ExplosionRecord_5 { x: -1, y: 2, z: -3 };
    let mut out = Vec::new();
    e.write_to(&mut out);
    assert_eq!(out, vec![0xff, 0x02, 0xfd]);
    assert_eq!(ExplosionRecord_5::read_from(&out, 0), Ok((e, 3)));
    let m = ChunkMetadata { chunk_x: -2, chunk_z: 5, primary_bitmap: 0x0003, add_bitmap: 0 };
    let mut out = Vec::new();
    m.write_to(&mut out);
    assert_eq!(out.len(), 12);
    assert_eq!(ChunkMetadata::read_from(&out, 0), Ok((m, 12)));
    assert_eq!(ChunkMetadata::read_from(&out[..11], 0), Err(DecodeError::ShortRead));
    let mut out = Vec::new();
    VarInt(300).write_to(&mut out);
    assert_eq!(VarInt::read_from(&out, 0), Ok((VarInt(300), 2)));
}

#[test]
fn legacy_play_decoders() {
    let mut out = Vec::new();
    write_varstring(&mut out, "hi");
    assert_eq!(decode_0x2(&out).unwrap(), "hi");
    assert_eq!(decode_0x2(&[0x03, b'a']), Err(DecodeError::ShortRead));
    assert_eq!(decode_0x9(&[0xfe]), Ok(-2));
    assert_eq!(decode_0x9(&[]), Err(DecodeError::ShortRead));
}

#[test]
fn entity_animation_ids() {
    assert_eq!(EntityAnimation::from_id(104), Some(EntityAnimation::Crouch));
    assert_eq!(EntityAnimation::from_id(6), None);
    assert_eq!(EntityAnimation::Uncrouch.id(), 105);
    assert_eq!(EntityAnimation::SwingArm.id(), 0);
}

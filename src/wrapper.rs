use vstd::prelude::*;

use crate::chunk::{batch_decoded, decode_batch, inflate, zlib_inflate, ChunkLayout, ColumnRequest, LoadedColumn};
use crate::error::{ChunkDecodeError, EncodeError};
use crate::schema::{views, Record, Value, ValueView};
use crate::state::ConnectionState;
use crate::types::{ChunkMetadata, ChunkMetadata_47, ExplosionRecord_5, Position};
use crate::varint::VarInt;
use crate::versions::{Packet, PacketName, PROTO_1_12_2, PROTO_1_7, PROTO_1_7_6, PROTO_1_8, PROTO_1_9, PROTO_MAX};
use crate::wire::copy_range;

verus! {

/// Which coordinates of a teleport are relative: x, y, z, yaw, pitch in the
/// five low bits.
#[derive(Debug, Clone, Copy, PartialEq, Eq, Structural)]
pub struct PositionFlags(pub i8);

/// Bits that name a known flag.
pub const POSITION_FLAG_BITS: i8 = 0x1f;

impl PositionFlags {
    /// The flags, when no unknown bit is set.
    pub fn from_bits(bits: i8) -> (r: Option<PositionFlags>)
        ensures
            r == (if bits & !POSITION_FLAG_BITS == 0 { Some(PositionFlags(bits)) } else { None::<PositionFlags> }),
    {
        if bits & !POSITION_FLAG_BITS == 0 {
            Some(PositionFlags(bits))
        } else {
            None
        }
    }
}

/// The pitch of a sound: older versions send a byte where 63 means normal
/// pitch, newer ones an IEEE single (kept as its bits).
#[derive(Debug, Clone, Copy, PartialEq, Eq, Structural)]
pub enum SoundPitch {
    Scaled63(u8),
    Bits(u32),
}

/// Chunk payloads as the versions send them, still unsliced.
#[allow(non_camel_case_types)]
#[allow(inconsistent_fields)]
#[derive(Debug, Clone)]
pub enum ChunkData {
    /// Several columns; one zlib stream holding all their data.
    Bulk_5 { sky_light_sent: bool, data: Vec<u8>, meta: Vec<ChunkMetadata> },
    /// Several columns; their data back to back, uncompressed.
    Bulk_47 { sky_light_sent: bool, meta: Vec<ChunkMetadata_47>, data: Vec<u8> },
    /// One column, zlib-compressed.
    Single_5 { x: i32, z: i32, ground_up: bool, bit_map: u16, add_bit_map: u16, compressed_chunk_data: Vec<u8> },
    Single_47 { x: i32, z: i32, ground_up: bool, bit_map: u16, chunk_data: Vec<u8> },
    Single_107 { x: i32, z: i32, ground_up: bool, bit_map: i32, chunk_data: Vec<u8> },
    /// One column followed by its block entities (NBT, kept as bytes).
    Single_110 { x: i32, z: i32, ground_up: bool, bit_map: i32, chunk_data: Vec<u8>, block_entities: Vec<u8> },
}

/// A version-independent event. Angles and coordinates that travel as IEEE
/// floats are kept as their bits; sound positions are in eighths of a block;
/// entity moves in 1/4096 of a block.
#[allow(inconsistent_fields)]
#[derive(Debug, Clone)]
pub enum AbstractPacket {
    SetProtocol { protocol_version: VarInt, server_host: String, server_port: u16, next_state: ConnectionState },
    SetCompression { threshold: VarInt },
    Disconnect { reason: String },
    LoginStart { username: String },
    LoginSuccess { uuid: String, username: String },
    EncryptionBeginClientbound { server_id: String, public_key: Vec<u8>, verify_token: Vec<u8> },
    EncryptionBeginServerbound { shared_secret: Vec<u8>, verify_token: Vec<u8> },
    ServerInfoRequest,
    ServerInfo { response: String },
    Ping { time: i64 },
    PingResponse { time: i64 },
    KeepAlive { keep_alive_id: i64 },
    PositionLookClientBound { x: u64, y: u64, z: u64, yaw: u32, pitch: u32, flags: Option<PositionFlags>, teleport_id: Option<i32> },
    /// `head_y` is the eye height (`y` plus 1.62) that 1.7 clients also send.
    PositionLookServerBound { x: u64, y: u64, head_y: u64, z: u64, yaw: u32, pitch: u32, on_ground: bool },
    ClientCommand { action_id: i32 },
    Explosion { x: u32, y: u32, z: u32, radius: u32, affected_block_offsets: Vec<ExplosionRecord_5>, motion_x: u32, motion_y: u32, motion_z: u32 },
    Respawn { dimension: i32, difficulty: u8, gamemode: u8, level_kind: String },
    BlockChange { location: Position, kind: i32 },
    NamedSoundEffect { sound_name: String, sound_category: Option<i32>, x: i32, y: i32, z: i32, volume: u32, pitch: SoundPitch },
    EntityRelativeMove { entity_id: i32, dx: i32, dy: i32, dz: i32, on_ground: Option<bool> },
    Chat { message: String },
    ChatServerbound(String),
    Chunks(ChunkData),
}

/// Which kind of event an `AbstractPacket` is, without its fields.
#[derive(Debug, Clone, Copy, PartialEq, Eq, Structural)]
pub enum EventKind {
    SetProtocol,
    SetCompression,
    Disconnect,
    LoginStart,
    LoginSuccess,
    EncryptionBeginClientbound,
    EncryptionBeginServerbound,
    ServerInfoRequest,
    ServerInfo,
    Ping,
    PingResponse,
    KeepAlive,
    PositionLookClientBound,
    PositionLookServerBound,
    ClientCommand,
    Explosion,
    Respawn,
    BlockChange,
    NamedSoundEffect,
    EntityRelativeMove,
    Chat,
    ChatServerbound,
    Chunks,
}

/// The kind of `ap`.
pub open spec fn event_kind(ap: AbstractPacket) -> EventKind {
    match ap {
        AbstractPacket::SetProtocol { .. } => EventKind::SetProtocol,
        AbstractPacket::SetCompression { .. } => EventKind::SetCompression,
        AbstractPacket::Disconnect { .. } => EventKind::Disconnect,
        AbstractPacket::LoginStart { .. } => EventKind::LoginStart,
        AbstractPacket::LoginSuccess { .. } => EventKind::LoginSuccess,
        AbstractPacket::EncryptionBeginClientbound { .. } => EventKind::EncryptionBeginClientbound,
        AbstractPacket::EncryptionBeginServerbound { .. } => EventKind::EncryptionBeginServerbound,
        AbstractPacket::ServerInfoRequest => EventKind::ServerInfoRequest,
        AbstractPacket::ServerInfo { .. } => EventKind::ServerInfo,
        AbstractPacket::Ping { .. } => EventKind::Ping,
        AbstractPacket::PingResponse { .. } => EventKind::PingResponse,
        AbstractPacket::KeepAlive { .. } => EventKind::KeepAlive,
        AbstractPacket::PositionLookClientBound { .. } => EventKind::PositionLookClientBound,
        AbstractPacket::PositionLookServerBound { .. } => EventKind::PositionLookServerBound,
        AbstractPacket::ClientCommand { .. } => EventKind::ClientCommand,
        AbstractPacket::Explosion { .. } => EventKind::Explosion,
        AbstractPacket::Respawn { .. } => EventKind::Respawn,
        AbstractPacket::BlockChange { .. } => EventKind::BlockChange,
        AbstractPacket::NamedSoundEffect { .. } => EventKind::NamedSoundEffect,
        AbstractPacket::EntityRelativeMove { .. } => EventKind::EntityRelativeMove,
        AbstractPacket::Chat { .. } => EventKind::Chat,
        AbstractPacket::ChatServerbound(..) => EventKind::ChatServerbound,
        AbstractPacket::Chunks(..) => EventKind::Chunks,
    }
}

pub open spec fn vint(vals: Seq<ValueView>, i: int) -> Option<i64> {
    if 0 <= i < vals.len() {
        match vals[i] {
            ValueView::Int(v) => Some(v),
            _ => None,
        }
    } else {
        None
    }
}

pub open spec fn vstr(vals: Seq<ValueView>, i: int) -> Option<Seq<char>> {
    if 0 <= i < vals.len() {
        match vals[i] {
            ValueView::Str(v) => Some(v),
            _ => None,
        }
    } else {
        None
    }
}

pub open spec fn vbytes(vals: Seq<ValueView>, i: int) -> Option<Seq<u8>> {
    if 0 <= i < vals.len() {
        match vals[i] {
            ValueView::Bytes(v) => Some(v),
            _ => None,
        }
    } else {
        None
    }
}

pub open spec fn vbool(vals: Seq<ValueView>, i: int) -> Option<bool> {
    if 0 <= i < vals.len() {
        match vals[i] {
            ValueView::Bool(v) => Some(v),
            _ => None,
        }
    } else {
        None
    }
}

pub open spec fn vpos(vals: Seq<ValueView>, i: int) -> Option<Position> {
    if 0 <= i < vals.len() {
        match vals[i] {
            ValueView::Position(v) => Some(v),
            _ => None,
        }
    } else {
        None
    }
}

pub open spec fn vrecs(vals: Seq<ValueView>, i: int) -> Option<Seq<Record>> {
    if 0 <= i < vals.len() {
        match vals[i] {
            ValueView::Array(v) => Some(v),
            _ => None,
        }
    } else {
        None
    }
}

/// The state a handshake's `next_state` number names: a handshake may only
/// ask for status (1) or login (2).
pub open spec fn state_of(n: i64) -> Option<ConnectionState> {
    if n == 1 {
        Some(ConnectionState::Status)
    } else if n == 2 {
        Some(ConnectionState::Login)
    } else {
        None
    }
}

/// Whether a handshake may name `s` as the next state.
pub open spec fn handshake_target(s: ConnectionState) -> bool {
    s == ConnectionState::Status || s == ConnectionState::Login
}

/// The number of a state in a handshake.
pub open spec fn state_number(s: ConnectionState) -> i64 {
    match s {
        ConnectionState::Handshaking => 0,
        ConnectionState::Status => 1,
        ConnectionState::Login => 2,
        ConnectionState::Play => 3,
    }
}

/// A move delta in 1/4096 block: 1/32 units before protocol 107, 1/4096 from it on.
pub open spec fn move_delta(v: i64, fine: bool) -> i32 {
    if fine {
        (v as i16) as i32
    } else {
        (((v as i8) as int) * 128) as i32
    }
}

pub open spec fn all_explosions(recs: Seq<Record>) -> bool {
    forall|i: int| 0 <= i < recs.len() ==> (#[trigger] recs[i]) is Explosion
}

pub open spec fn all_chunk_metas(recs: Seq<Record>) -> bool {
    forall|i: int| 0 <= i < recs.len() ==> (#[trigger] recs[i]) is ChunkMeta
}

pub open spec fn all_chunk_metas_47(recs: Seq<Record>) -> bool {
    forall|i: int| 0 <= i < recs.len() ==> (#[trigger] recs[i]) is ChunkMeta47
}

/// Every record is an explosion offset, and `offs` lists them.
pub open spec fn explosion_offsets(recs: Seq<Record>, offs: Seq<ExplosionRecord_5>) -> bool {
    recs.len() == offs.len() && forall|i: int| 0 <= i < recs.len() ==> recs[i] == Record::Explosion(#[trigger] offs[i])
}

pub open spec fn chunk_metas(recs: Seq<Record>, metas: Seq<ChunkMetadata>) -> bool {
    recs.len() == metas.len() && forall|i: int| 0 <= i < recs.len() ==> recs[i] == Record::ChunkMeta(#[trigger] metas[i])
}

pub open spec fn chunk_metas_47(recs: Seq<Record>, metas: Seq<ChunkMetadata_47>) -> bool {
    recs.len() == metas.len() && forall|i: int| 0 <= i < recs.len() ==> recs[i] == Record::ChunkMeta47(#[trigger] metas[i])
}

/// Whether the packet `name` with values `vals` has a version-independent
/// form: it is one of the packets with a normalized form and its values have the shapes
/// its layout gives.
pub open spec fn has_event(name: PacketName, vals: Seq<ValueView>) -> bool {
    match name {
        PacketName::SetProtocol_5 => vint(vals, 0) is Some && vstr(vals, 1) is Some && vint(vals, 2) is Some
            && vint(vals, 3) is Some && state_of(vint(vals, 3)->0) is Some,
        PacketName::Compress_47 => vint(vals, 0) is Some,
        PacketName::LoginStart_5 => vstr(vals, 0) is Some,
        PacketName::Success_5 => vstr(vals, 0) is Some && vstr(vals, 1) is Some,
        PacketName::Disconnect_5 | PacketName::KickDisconnect_5 => vstr(vals, 0) is Some,
        PacketName::EncryptionBegin_5 | PacketName::EncryptionBegin_47 => vstr(vals, 0) is Some
            && vbytes(vals, 1) is Some && vbytes(vals, 2) is Some,
        PacketName::ServerInfo_5 => vstr(vals, 0) is Some,
        PacketName::Ping_5 => vint(vals, 0) is Some,
        PacketName::KeepAlive_5 | PacketName::KeepAlive_47 | PacketName::KeepAlive_340 => vint(vals, 0) is Some,
        PacketName::Chat_5 | PacketName::Chat_47 => vstr(vals, 0) is Some,
        PacketName::Position_5 => vint(vals, 0) is Some && vint(vals, 1) is Some && vint(vals, 2) is Some
            && vint(vals, 3) is Some && vint(vals, 4) is Some,
        PacketName::Position_47 => vint(vals, 0) is Some && vint(vals, 1) is Some && vint(vals, 2) is Some
            && vint(vals, 3) is Some && vint(vals, 4) is Some && vint(vals, 5) is Some,
        PacketName::Position_107 => vint(vals, 0) is Some && vint(vals, 1) is Some && vint(vals, 2) is Some
            && vint(vals, 3) is Some && vint(vals, 4) is Some && vint(vals, 5) is Some && vint(vals, 6) is Some,
        PacketName::Explosion_5 => vint(vals, 0) is Some && vint(vals, 1) is Some && vint(vals, 2) is Some
            && vint(vals, 3) is Some && vint(vals, 5) is Some && vint(vals, 6) is Some && vint(vals, 7) is Some
            && vrecs(vals, 4) is Some && all_explosions(vrecs(vals, 4)->0),
        PacketName::Respawn_5 => vint(vals, 0) is Some && vint(vals, 1) is Some && vint(vals, 2) is Some && vstr(vals, 3) is Some,
        PacketName::BlockChange_5 | PacketName::BlockChange_47 => vpos(vals, 0) is Some && vint(vals, 1) is Some,
        PacketName::NamedSoundEffect_5 => vstr(vals, 0) is Some && vint(vals, 1) is Some && vint(vals, 2) is Some
            && vint(vals, 3) is Some && vint(vals, 4) is Some && vint(vals, 5) is Some,
        PacketName::NamedSoundEffect_107 | PacketName::NamedSoundEffect_210 => vstr(vals, 0) is Some && vint(vals, 1) is Some
            && vint(vals, 2) is Some && vint(vals, 3) is Some && vint(vals, 4) is Some && vint(vals, 5) is Some && vint(vals, 6) is Some,
        PacketName::RelEntityMove_5 => vint(vals, 0) is Some && vint(vals, 1) is Some && vint(vals, 2) is Some && vint(vals, 3) is Some,
        PacketName::RelEntityMove_47 | PacketName::RelEntityMove_107 => vint(vals, 0) is Some && vint(vals, 1) is Some
            && vint(vals, 2) is Some && vint(vals, 3) is Some && vbool(vals, 4) is Some,
        PacketName::MapChunk_5 => vint(vals, 0) is Some && vint(vals, 1) is Some && vbool(vals, 2) is Some
            && vint(vals, 3) is Some && vint(vals, 4) is Some && vbytes(vals, 5) is Some,
        PacketName::MapChunk_47 | PacketName::MapChunk_107 => vint(vals, 0) is Some && vint(vals, 1) is Some
            && vbool(vals, 2) is Some && vint(vals, 3) is Some && vbytes(vals, 4) is Some,
        PacketName::MapChunk_110 => vint(vals, 0) is Some && vint(vals, 1) is Some && vbool(vals, 2) is Some
            && vint(vals, 3) is Some && vbytes(vals, 4) is Some && vbytes(vals, 5) is Some,
        PacketName::MapChunkBulk_5 => vbool(vals, 2) is Some && vbytes(vals, 3) is Some && vrecs(vals, 4) is Some
            && all_chunk_metas(vrecs(vals, 4)->0),
        PacketName::MapChunkBulk_47 => vbool(vals, 0) is Some && vrecs(vals, 1) is Some && vbytes(vals, 2) is Some
            && all_chunk_metas_47(vrecs(vals, 1)->0),
        _ => false,
    }
}

/// `ap` is the version-independent form of packet `name` with values `vals`.
pub open spec fn incoming(name: PacketName, vals: Seq<ValueView>, ap: AbstractPacket) -> bool {
    has_event(name, vals) && match name {
        PacketName::SetProtocol_5 => ap matches AbstractPacket::SetProtocol { protocol_version, server_host, server_port, next_state }
            && Some(protocol_version.0 as i64) == Some({ let v = vint(vals, 0)->0; (v as i32) as i64 }) && Some(server_host@) == vstr(vals, 1)
            && Some(server_port as i64) == Some({ let v = vint(vals, 2)->0; (v as u16) as i64 }) && Some(next_state) == state_of(vint(vals, 3)->0),
        PacketName::Compress_47 => ap matches AbstractPacket::SetCompression { threshold } && Some(threshold.0 as i64) == Some({ let v = vint(vals, 0)->0; (v as i32) as i64 }),
        PacketName::LoginStart_5 => ap matches AbstractPacket::LoginStart { username } && Some(username@) == vstr(vals, 0),
        PacketName::Success_5 => ap matches AbstractPacket::LoginSuccess { uuid, username } && Some(uuid@) == vstr(vals, 0) && Some(username@) == vstr(vals, 1),
        PacketName::Disconnect_5 | PacketName::KickDisconnect_5 => ap matches AbstractPacket::Disconnect { reason } && Some(reason@) == vstr(vals, 0),
        PacketName::EncryptionBegin_5 | PacketName::EncryptionBegin_47 => ap matches AbstractPacket::EncryptionBeginClientbound { server_id, public_key, verify_token }
            && Some(server_id@) == vstr(vals, 0) && Some(public_key@) == vbytes(vals, 1) && Some(verify_token@) == vbytes(vals, 2),
        PacketName::ServerInfo_5 => ap matches AbstractPacket::ServerInfo { response } && Some(response@) == vstr(vals, 0),
        PacketName::Ping_5 => ap matches AbstractPacket::PingResponse { time } && Some(time) == vint(vals, 0),
        PacketName::KeepAlive_5 | PacketName::KeepAlive_47 | PacketName::KeepAlive_340 => ap matches AbstractPacket::KeepAlive { keep_alive_id }
            && Some(keep_alive_id) == vint(vals, 0),
        PacketName::Chat_5 | PacketName::Chat_47 => ap matches AbstractPacket::Chat { message } && Some(message@) == vstr(vals, 0),
        PacketName::Position_5 | PacketName::Position_47 | PacketName::Position_107 => ap matches AbstractPacket::PositionLookClientBound { x, y, z, yaw, pitch, flags, teleport_id }
            && x == (vint(vals, 0)->0) as u64 && y == (vint(vals, 1)->0) as u64 && z == (vint(vals, 2)->0) as u64
            && Some(yaw) == Some({ let v = vint(vals, 3)->0; v as u32 }) && Some(pitch) == Some({ let v = vint(vals, 4)->0; v as u32 })
            && flags == (if name == PacketName::Position_5 { None::<PositionFlags> } else {
                let b = (vint(vals, 5)->0) as i8;
                if b & !POSITION_FLAG_BITS == 0 { Some(PositionFlags(b)) } else { None }
            })
            && teleport_id == (if name == PacketName::Position_107 { Some((vint(vals, 6)->0) as i32) } else { None::<i32> }),
        PacketName::Explosion_5 => ap matches AbstractPacket::Explosion { x, y, z, radius, affected_block_offsets, motion_x, motion_y, motion_z }
            && Some(x) == Some({ let v = vint(vals, 0)->0; v as u32 }) && Some(y) == Some({ let v = vint(vals, 1)->0; v as u32 })
            && Some(z) == Some({ let v = vint(vals, 2)->0; v as u32 }) && Some(radius) == Some({ let v = vint(vals, 3)->0; v as u32 })
            && explosion_offsets(vrecs(vals, 4)->0, affected_block_offsets@)
            && Some(motion_x) == Some({ let v = vint(vals, 5)->0; v as u32 }) && Some(motion_y) == Some({ let v = vint(vals, 6)->0; v as u32 })
            && Some(motion_z) == Some({ let v = vint(vals, 7)->0; v as u32 }),
        PacketName::Respawn_5 => ap matches AbstractPacket::Respawn { dimension, difficulty, gamemode, level_kind }
            && Some(dimension) == Some({ let v = vint(vals, 0)->0; v as i32 }) && Some(difficulty) == Some({ let v = vint(vals, 1)->0; v as u8 })
            && Some(gamemode) == Some({ let v = vint(vals, 2)->0; v as u8 }) && Some(level_kind@) == vstr(vals, 3),
        PacketName::BlockChange_5 | PacketName::BlockChange_47 => ap matches AbstractPacket::BlockChange { location, kind }
            && Some(location) == vpos(vals, 0) && Some(kind) == Some({ let v = vint(vals, 1)->0; v as i32 }),
        PacketName::NamedSoundEffect_5 => ap matches AbstractPacket::NamedSoundEffect { sound_name, sound_category, x, y, z, volume, pitch }
            && Some(sound_name@) == vstr(vals, 0) && sound_category is None
            && Some(x) == Some({ let v = vint(vals, 1)->0; v as i32 }) && Some(y) == Some({ let v = vint(vals, 2)->0; v as i32 })
            && Some(z) == Some({ let v = vint(vals, 3)->0; v as i32 }) && Some(volume) == Some({ let v = vint(vals, 4)->0; v as u32 })
            && Some(pitch) == Some({ let v = vint(vals, 5)->0; SoundPitch::Scaled63(v as u8) }),
        PacketName::NamedSoundEffect_107 | PacketName::NamedSoundEffect_210 => ap matches AbstractPacket::NamedSoundEffect { sound_name, sound_category, x, y, z, volume, pitch }
            && Some(sound_name@) == vstr(vals, 0) && sound_category == Some({ let v = vint(vals, 1)->0; v as i32 })
            && Some(x) == Some({ let v = vint(vals, 2)->0; v as i32 }) && Some(y) == Some({ let v = vint(vals, 3)->0; v as i32 })
            && Some(z) == Some({ let v = vint(vals, 4)->0; v as i32 }) && Some(volume) == Some({ let v = vint(vals, 5)->0; v as u32 })
            && Some(pitch) == Some({ let v = vint(vals, 6)->0; if name == PacketName::NamedSoundEffect_107 { SoundPitch::Scaled63(v as u8) } else { SoundPitch::Bits(v as u32) } }),
        PacketName::RelEntityMove_5 | PacketName::RelEntityMove_47 | PacketName::RelEntityMove_107 => ap matches AbstractPacket::EntityRelativeMove { entity_id, dx, dy, dz, on_ground }
            && Some(entity_id) == Some({ let v = vint(vals, 0)->0; v as i32 })
            && Some(dx) == Some({ let v = vint(vals, 1)->0; move_delta(v, name == PacketName::RelEntityMove_107) })
            && Some(dy) == Some({ let v = vint(vals, 2)->0; move_delta(v, name == PacketName::RelEntityMove_107) })
            && Some(dz) == Some({ let v = vint(vals, 3)->0; move_delta(v, name == PacketName::RelEntityMove_107) })
            && on_ground == (if name == PacketName::RelEntityMove_5 { None::<bool> } else { vbool(vals, 4) }),
        PacketName::MapChunk_5 => ap matches AbstractPacket::Chunks(ChunkData::Single_5 { x, z, ground_up, bit_map, add_bit_map, compressed_chunk_data })
            && Some(x) == Some({ let v = vint(vals, 0)->0; v as i32 }) && Some(z) == Some({ let v = vint(vals, 1)->0; v as i32 })
            && Some(ground_up) == vbool(vals, 2) && Some(bit_map) == Some({ let v = vint(vals, 3)->0; v as u16 })
            && Some(add_bit_map) == Some({ let v = vint(vals, 4)->0; v as u16 }) && Some(compressed_chunk_data@) == vbytes(vals, 5),
        PacketName::MapChunk_47 => ap matches AbstractPacket::Chunks(ChunkData::Single_47 { x, z, ground_up, bit_map, chunk_data })
            && Some(x) == Some({ let v = vint(vals, 0)->0; v as i32 }) && Some(z) == Some({ let v = vint(vals, 1)->0; v as i32 })
            && Some(ground_up) == vbool(vals, 2) && Some(bit_map) == Some({ let v = vint(vals, 3)->0; v as u16 })
            && Some(chunk_data@) == vbytes(vals, 4),
        PacketName::MapChunk_107 => ap matches AbstractPacket::Chunks(ChunkData::Single_107 { x, z, ground_up, bit_map, chunk_data })
            && Some(x) == Some({ let v = vint(vals, 0)->0; v as i32 }) && Some(z) == Some({ let v = vint(vals, 1)->0; v as i32 })
            && Some(ground_up) == vbool(vals, 2) && Some(bit_map) == Some({ let v = vint(vals, 3)->0; v as i32 })
            && Some(chunk_data@) == vbytes(vals, 4),
        PacketName::MapChunk_110 => ap matches AbstractPacket::Chunks(ChunkData::Single_110 { x, z, ground_up, bit_map, chunk_data, block_entities })
            && Some(x) == Some({ let v = vint(vals, 0)->0; v as i32 }) && Some(z) == Some({ let v = vint(vals, 1)->0; v as i32 })
            && Some(ground_up) == vbool(vals, 2) && Some(bit_map) == Some({ let v = vint(vals, 3)->0; v as i32 })
            && Some(chunk_data@) == vbytes(vals, 4) && Some(block_entities@) == vbytes(vals, 5),
        PacketName::MapChunkBulk_5 => ap matches AbstractPacket::Chunks(ChunkData::Bulk_5 { sky_light_sent, data, meta })
            && Some(sky_light_sent) == vbool(vals, 2) && Some(data@) == vbytes(vals, 3) && chunk_metas(vrecs(vals, 4)->0, meta@),
        PacketName::MapChunkBulk_47 => ap matches AbstractPacket::Chunks(ChunkData::Bulk_47 { sky_light_sent, meta, data })
            && Some(sky_light_sent) == vbool(vals, 0) && chunk_metas_47(vrecs(vals, 1)->0, meta@) && Some(data@) == vbytes(vals, 2),
        _ => false,
    }
}

impl AbstractPacket {
    /// The kind of this event.
    pub fn kind(&self) -> (r: EventKind)
        ensures
            r == event_kind(*self),
    {
        match self {
            AbstractPacket::SetProtocol { .. } => EventKind::SetProtocol,
            AbstractPacket::SetCompression { .. } => EventKind::SetCompression,
            AbstractPacket::Disconnect { .. } => EventKind::Disconnect,
            AbstractPacket::LoginStart { .. } => EventKind::LoginStart,
            AbstractPacket::LoginSuccess { .. } => EventKind::LoginSuccess,
            AbstractPacket::EncryptionBeginClientbound { .. } => EventKind::EncryptionBeginClientbound,
            AbstractPacket::EncryptionBeginServerbound { .. } => EventKind::EncryptionBeginServerbound,
            AbstractPacket::ServerInfoRequest => EventKind::ServerInfoRequest,
            AbstractPacket::ServerInfo { .. } => EventKind::ServerInfo,
            AbstractPacket::Ping { .. } => EventKind::Ping,
            AbstractPacket::PingResponse { .. } => EventKind::PingResponse,
            AbstractPacket::KeepAlive { .. } => EventKind::KeepAlive,
            AbstractPacket::PositionLookClientBound { .. } => EventKind::PositionLookClientBound,
            AbstractPacket::PositionLookServerBound { .. } => EventKind::PositionLookServerBound,
            AbstractPacket::ClientCommand { .. } => EventKind::ClientCommand,
            AbstractPacket::Explosion { .. } => EventKind::Explosion,
            AbstractPacket::Respawn { .. } => EventKind::Respawn,
            AbstractPacket::BlockChange { .. } => EventKind::BlockChange,
            AbstractPacket::NamedSoundEffect { .. } => EventKind::NamedSoundEffect,
            AbstractPacket::EntityRelativeMove { .. } => EventKind::EntityRelativeMove,
            AbstractPacket::Chat { .. } => EventKind::Chat,
            AbstractPacket::ChatServerbound(..) => EventKind::ChatServerbound,
            AbstractPacket::Chunks(..) => EventKind::Chunks,
        }
    }
}

fn get_int(vals: &Vec<Value>, i: usize) -> (r: Option<i64>)
    ensures
        r == vint(views(vals@), i as int),
{
    if i < vals.len() {
        assert(views(vals@)[i as int] == vals@[i as int]@);
        match &vals[i] {
            Value::Int(v) => Some(*v),
            _ => None,
        }
    } else {
        None
    }
}

fn get_bool(vals: &Vec<Value>, i: usize) -> (r: Option<bool>)
    ensures
        r == vbool(views(vals@), i as int),
{
    if i < vals.len() {
        assert(views(vals@)[i as int] == vals@[i as int]@);
        match &vals[i] {
            Value::Bool(v) => Some(*v),
            _ => None,
        }
    } else {
        None
    }
}

fn get_pos(vals: &Vec<Value>, i: usize) -> (r: Option<Position>)
    ensures
        r == vpos(views(vals@), i as int),
{
    if i < vals.len() {
        assert(views(vals@)[i as int] == vals@[i as int]@);
        match &vals[i] {
            Value::Position(v) => Some(*v),
            _ => None,
        }
    } else {
        None
    }
}

fn get_str(vals: &Vec<Value>, i: usize) -> (r: Option<String>)
    ensures
        match r {
            Some(s) => vstr(views(vals@), i as int) == Some(s@),
            None => vstr(views(vals@), i as int) is None,
        },
{
    if i < vals.len() {
        assert(views(vals@)[i as int] == vals@[i as int]@);
        match &vals[i] {
            Value::Str(v) => Some(v.clone()),
            _ => None,
        }
    } else {
        None
    }
}

fn get_bytes(vals: &Vec<Value>, i: usize) -> (r: Option<Vec<u8>>)
    ensures
        match r {
            Some(b) => vbytes(views(vals@), i as int) == Some(b@),
            None => vbytes(views(vals@), i as int) is None,
        },
{
    if i < vals.len() {
        assert(views(vals@)[i as int] == vals@[i as int]@);
        match &vals[i] {
            Value::Bytes(v) => Some(copy_range(v.as_slice(), 0, v.len())),
            _ => None,
        }
    } else {
        None
    }
}

fn get_recs(vals: &Vec<Value>, i: usize) -> (r: Option<&Vec<Record>>)
    ensures
        match r {
            Some(rs) => vrecs(views(vals@), i as int) == Some(rs@),
            None => vrecs(views(vals@), i as int) is None,
        },
{
    if i < vals.len() {
        assert(views(vals@)[i as int] == vals@[i as int]@);
        match &vals[i] {
            Value::Array(v) => Some(v),
            _ => None,
        }
    } else {
        None
    }
}

fn explosion_list(recs: &Vec<Record>) -> (r: Option<Vec<ExplosionRecord_5>>)
    ensures
        match r {
            Some(o) => explosion_offsets(recs@, o@),
            None => true,
        },
        (r is Some) == all_explosions(recs@),
{
    let mut out: Vec<ExplosionRecord_5> = Vec::new();
    let mut i: usize = 0;
    while i < recs.len()
        invariant
            i <= recs@.len(),
            out@.len() == i,
            forall|j: int|
                #![trigger recs@[j]]
                #![trigger out@[j]]
                0 <= j < i ==> recs@[j] == Record::Explosion(out@[j]),
        decreases recs@.len() - i,
    {
        match recs[i] {
            Record::Explosion(e) => out.push(e),
            _ => {
                return None;
            },
        }
        i = i + 1;
    }
    Some(out)
}

fn chunk_meta_list(recs: &Vec<Record>) -> (r: Option<Vec<ChunkMetadata>>)
    ensures
        match r {
            Some(o) => chunk_metas(recs@, o@),
            None => true,
        },
        (r is Some) == all_chunk_metas(recs@),
{
    let mut out: Vec<ChunkMetadata> = Vec::new();
    let mut i: usize = 0;
    while i < recs.len()
        invariant
            i <= recs@.len(),
            out@.len() == i,
            forall|j: int|
                #![trigger recs@[j]]
                #![trigger out@[j]]
                0 <= j < i ==> recs@[j] == Record::ChunkMeta(out@[j]),
        decreases recs@.len() - i,
    {
        match recs[i] {
            Record::ChunkMeta(e) => out.push(e),
            _ => {
                return None;
            },
        }
        i = i + 1;
    }
    Some(out)
}

fn chunk_meta_47_list(recs: &Vec<Record>) -> (r: Option<Vec<ChunkMetadata_47>>)
    ensures
        match r {
            Some(o) => chunk_metas_47(recs@, o@),
            None => true,
        },
        (r is Some) == all_chunk_metas_47(recs@),
{
    let mut out: Vec<ChunkMetadata_47> = Vec::new();
    let mut i: usize = 0;
    while i < recs.len()
        invariant
            i <= recs@.len(),
            out@.len() == i,
            forall|j: int|
                #![trigger recs@[j]]
                #![trigger out@[j]]
                0 <= j < i ==> recs@[j] == Record::ChunkMeta47(out@[j]),
        decreases recs@.len() - i,
    {
        match recs[i] {
            Record::ChunkMeta47(e) => out.push(e),
            _ => {
                return None;
            },
        }
        i = i + 1;
    }
    Some(out)
}

fn state_from_number(n: i64) -> (r: Option<ConnectionState>)
    ensures
        r == state_of(n),
{
    if n == 1 {
        Some(ConnectionState::Status)
    } else if n == 2 {
        Some(ConnectionState::Login)
    } else {
        None
    }
}

fn to_move_delta(v: i64, fine: bool) -> (r: i32)
    ensures
        r == move_delta(v, fine),
{
    if fine {
        (#[verifier::truncate] (v as i16)) as i32
    } else {
        ((#[verifier::truncate] (v as i8)) as i32) * 128
    }
}

fn from_session_packet(name: PacketName, vals: &Vec<Value>) -> (r: Option<AbstractPacket>)
    requires
        name is SetProtocol_5 || name is Compress_47 || name is LoginStart_5 || name is Success_5
            || name is Disconnect_5 || name is KickDisconnect_5 || name is EncryptionBegin_5
            || name is EncryptionBegin_47 || name is ServerInfo_5 || name is Ping_5 || name is KeepAlive_5
            || name is KeepAlive_47 || name is KeepAlive_340 || name is Chat_5 || name is Chat_47,
    ensures
        (r is Some) == has_event(name, views(vals@)),
        r matches Some(ap) ==> incoming(name, views(vals@), ap),
{
    match name {
        PacketName::SetProtocol_5 => {
            let pv = get_int(vals, 0)?;
            let host = get_str(vals, 1)?;
            let port = get_int(vals, 2)?;
            let next = get_int(vals, 3)?;
            let next_state = state_from_number(next)?;
            Some(AbstractPacket::SetProtocol {
                protocol_version: VarInt(#[verifier::truncate] (pv as i32)),
                server_host: host,
                server_port: #[verifier::truncate] (port as u16),
                next_state,
            })
        },
        PacketName::Compress_47 => {
            let t = get_int(vals, 0)?;
            Some(AbstractPacket::SetCompression { threshold: VarInt(#[verifier::truncate] (t as i32)) })
        },
        PacketName::LoginStart_5 => {
            let username = get_str(vals, 0)?;
            Some(AbstractPacket::LoginStart { username })
        },
        PacketName::Success_5 => {
            let uuid = get_str(vals, 0)?;
            let username = get_str(vals, 1)?;
            Some(AbstractPacket::LoginSuccess { uuid, username })
        },
        PacketName::Disconnect_5 | PacketName::KickDisconnect_5 => {
            let reason = get_str(vals, 0)?;
            Some(AbstractPacket::Disconnect { reason })
        },
        PacketName::EncryptionBegin_5 | PacketName::EncryptionBegin_47 => {
            let server_id = get_str(vals, 0)?;
            let public_key = get_bytes(vals, 1)?;
            let verify_token = get_bytes(vals, 2)?;
            Some(AbstractPacket::EncryptionBeginClientbound { server_id, public_key, verify_token })
        },
        PacketName::ServerInfo_5 => {
            let response = get_str(vals, 0)?;
            Some(AbstractPacket::ServerInfo { response })
        },
        PacketName::Ping_5 => {
            let time = get_int(vals, 0)?;
            Some(AbstractPacket::PingResponse { time })
        },
        PacketName::KeepAlive_5 | PacketName::KeepAlive_47 | PacketName::KeepAlive_340 => {
            let keep_alive_id = get_int(vals, 0)?;
            Some(AbstractPacket::KeepAlive { keep_alive_id })
        },
        PacketName::Chat_5 | PacketName::Chat_47 => {
            let message = get_str(vals, 0)?;
            Some(AbstractPacket::Chat { message })
        },
        _ => None,
    }
}

fn from_world_packet(name: PacketName, vals: &Vec<Value>) -> (r: Option<AbstractPacket>)
    requires
        !(name is SetProtocol_5 || name is Compress_47 || name is LoginStart_5 || name is Success_5
            || name is Disconnect_5 || name is KickDisconnect_5 || name is EncryptionBegin_5
            || name is EncryptionBegin_47 || name is ServerInfo_5 || name is Ping_5 || name is KeepAlive_5
            || name is KeepAlive_47 || name is KeepAlive_340 || name is Chat_5 || name is Chat_47),
        !(name is MapChunk_5 || name is MapChunk_47 || name is MapChunk_107 || name is MapChunk_110
            || name is MapChunkBulk_5 || name is MapChunkBulk_47),
    ensures
        (r is Some) == has_event(name, views(vals@)),
        r matches Some(ap) ==> incoming(name, views(vals@), ap),
{
    match name {
        PacketName::Position_5 | PacketName::Position_47 | PacketName::Position_107 => {
            let x = get_int(vals, 0)?;
            let y = get_int(vals, 1)?;
            let z = get_int(vals, 2)?;
            let yaw = get_int(vals, 3)?;
            let pitch = get_int(vals, 4)?;
            let flags = if name == PacketName::Position_5 {
                None
            } else {
                let f = get_int(vals, 5)?;
                PositionFlags::from_bits(#[verifier::truncate] (f as i8))
            };
            let teleport_id = if name == PacketName::Position_107 {
                let t = get_int(vals, 6)?;
                Some(#[verifier::truncate] (t as i32))
            } else {
                None
            };
            Some(AbstractPacket::PositionLookClientBound {
                x: #[verifier::truncate] (x as u64),
                y: #[verifier::truncate] (y as u64),
                z: #[verifier::truncate] (z as u64),
                yaw: #[verifier::truncate] (yaw as u32),
                pitch: #[verifier::truncate] (pitch as u32),
                flags,
                teleport_id,
            })
        },
        PacketName::Explosion_5 => {
            let x = get_int(vals, 0)?;
            let y = get_int(vals, 1)?;
            let z = get_int(vals, 2)?;
            let radius = get_int(vals, 3)?;
            let recs = get_recs(vals, 4)?;
            let mx = get_int(vals, 5)?;
            let my = get_int(vals, 6)?;
            let mz = get_int(vals, 7)?;
            let affected_block_offsets = explosion_list(recs)?;
            Some(AbstractPacket::Explosion {
                x: #[verifier::truncate] (x as u32),
                y: #[verifier::truncate] (y as u32),
                z: #[verifier::truncate] (z as u32),
                radius: #[verifier::truncate] (radius as u32),
                affected_block_offsets,
                motion_x: #[verifier::truncate] (mx as u32),
                motion_y: #[verifier::truncate] (my as u32),
                motion_z: #[verifier::truncate] (mz as u32),
            })
        },
        PacketName::Respawn_5 => {
            let dimension = get_int(vals, 0)?;
            let difficulty = get_int(vals, 1)?;
            let gamemode = get_int(vals, 2)?;
            let level_kind = get_str(vals, 3)?;
            Some(AbstractPacket::Respawn {
                dimension: #[verifier::truncate] (dimension as i32),
                difficulty: #[verifier::truncate] (difficulty as u8),
                gamemode: #[verifier::truncate] (gamemode as u8),
                level_kind,
            })
        },
        PacketName::BlockChange_5 | PacketName::BlockChange_47 => {
            let location = get_pos(vals, 0)?;
            let kind = get_int(vals, 1)?;
            Some(AbstractPacket::BlockChange { location, kind: #[verifier::truncate] (kind as i32) })
        },
        PacketName::NamedSoundEffect_5 | PacketName::NamedSoundEffect_107 | PacketName::NamedSoundEffect_210 => {
            let sound_name = get_str(vals, 0)?;
            let first: usize = if name == PacketName::NamedSoundEffect_5 { 1 } else { 2 };
            let sound_category = if name == PacketName::NamedSoundEffect_5 {
                None
            } else {
                let c = get_int(vals, 1)?;
                Some(#[verifier::truncate] (c as i32))
            };
            let x = get_int(vals, first)?;
            let y = get_int(vals, first + 1)?;
            let z = get_int(vals, first + 2)?;
            let volume = get_int(vals, first + 3)?;
            let p = get_int(vals, first + 4)?;
            let pitch = if name == PacketName::NamedSoundEffect_210 {
                SoundPitch::Bits(#[verifier::truncate] (p as u32))
            } else {
                SoundPitch::Scaled63(#[verifier::truncate] (p as u8))
            };
            Some(AbstractPacket::NamedSoundEffect {
                sound_name,
                sound_category,
                x: #[verifier::truncate] (x as i32),
                y: #[verifier::truncate] (y as i32),
                z: #[verifier::truncate] (z as i32),
                volume: #[verifier::truncate] (volume as u32),
                pitch,
            })
        },
        PacketName::RelEntityMove_5 | PacketName::RelEntityMove_47 | PacketName::RelEntityMove_107 => {
            let eid = get_int(vals, 0)?;
            let fine = name == PacketName::RelEntityMove_107;
            let dx = get_int(vals, 1)?;
            let dy = get_int(vals, 2)?;
            let dz = get_int(vals, 3)?;
            let on_ground = if name == PacketName::RelEntityMove_5 {
                None
            } else {
                Some(get_bool(vals, 4)?)
            };
            Some(AbstractPacket::EntityRelativeMove {
                entity_id: #[verifier::truncate] (eid as i32),
                dx: to_move_delta(dx, fine),
                dy: to_move_delta(dy, fine),
                dz: to_move_delta(dz, fine),
                on_ground,
            })
        },
        _ => None,
    }
}

fn from_chunk_packet(name: PacketName, vals: &Vec<Value>) -> (r: Option<AbstractPacket>)
    requires
        name is MapChunk_5 || name is MapChunk_47 || name is MapChunk_107 || name is MapChunk_110
            || name is MapChunkBulk_5 || name is MapChunkBulk_47,
    ensures
        (r is Some) == has_event(name, views(vals@)),
        r matches Some(ap) ==> incoming(name, views(vals@), ap),
{
    match name {
        PacketName::MapChunkBulk_5 => {
            let sky_light_sent = get_bool(vals, 2)?;
            let data = get_bytes(vals, 3)?;
            let recs = get_recs(vals, 4)?;
            let meta = chunk_meta_list(recs)?;
            Some(AbstractPacket::Chunks(ChunkData::Bulk_5 { sky_light_sent, data, meta }))
        },
        PacketName::MapChunkBulk_47 => {
            let sky_light_sent = get_bool(vals, 0)?;
            let recs = get_recs(vals, 1)?;
            let data = get_bytes(vals, 2)?;
            let meta = chunk_meta_47_list(recs)?;
            Some(AbstractPacket::Chunks(ChunkData::Bulk_47 { sky_light_sent, meta, data }))
        },
        _ => {
            let x = get_int(vals, 0)?;
            let z = get_int(vals, 1)?;
            let ground_up = get_bool(vals, 2)?;
            let bm = get_int(vals, 3)?;
            let x = #[verifier::truncate] (x as i32);
            let z = #[verifier::truncate] (z as i32);
            match name {
                PacketName::MapChunk_5 => {
                    let abm = get_int(vals, 4)?;
                    let compressed_chunk_data = get_bytes(vals, 5)?;
                    Some(AbstractPacket::Chunks(ChunkData::Single_5 {
                        x,
                        z,
                        ground_up,
                        bit_map: #[verifier::truncate] (bm as u16),
                        add_bit_map: #[verifier::truncate] (abm as u16),
                        compressed_chunk_data,
                    }))
                },
                PacketName::MapChunk_47 => {
                    let chunk_data = get_bytes(vals, 4)?;
                    Some(AbstractPacket::Chunks(ChunkData::Single_47 {
                        x,
                        z,
                        ground_up,
                        bit_map: #[verifier::truncate] (bm as u16),
                        chunk_data,
                    }))
                },
                PacketName::MapChunk_107 => {
                    let chunk_data = get_bytes(vals, 4)?;
                    Some(AbstractPacket::Chunks(ChunkData::Single_107 {
                        x,
                        z,
                        ground_up,
                        bit_map: #[verifier::truncate] (bm as i32),
                        chunk_data,
                    }))
                },
                _ => {
                    let chunk_data = get_bytes(vals, 4)?;
                    let block_entities = get_bytes(vals, 5)?;
                    Some(AbstractPacket::Chunks(ChunkData::Single_110 {
                        x,
                        z,
                        ground_up,
                        bit_map: #[verifier::truncate] (bm as i32),
                        chunk_data,
                        block_entities,
                    }))
                },
            }
        },
    }
}

impl AbstractPacket {
    /// The version-independent form of a decoded packet; `None` for packets
    /// that have none (administrative ones, entity bookkeeping this layer does
    /// not carry) and for values of the wrong shape.
    pub fn from_packet(packet: Packet) -> (r: Option<Self>)
        ensures
            (r is Some) == has_event(packet.name, views(packet.values@)),
            r matches Some(ap) ==> incoming(packet.name, views(packet.values@), ap),
    {
        let name = packet.name;
        let vals = &packet.values;
        match name {
            PacketName::MapChunk_5 | PacketName::MapChunk_47 | PacketName::MapChunk_107
            | PacketName::MapChunk_110 | PacketName::MapChunkBulk_5 | PacketName::MapChunkBulk_47 => from_chunk_packet(name, vals),
            PacketName::SetProtocol_5 | PacketName::Compress_47 | PacketName::LoginStart_5 | PacketName::Success_5
            | PacketName::Disconnect_5 | PacketName::KickDisconnect_5 | PacketName::EncryptionBegin_5
            | PacketName::EncryptionBegin_47 | PacketName::ServerInfo_5 | PacketName::Ping_5 | PacketName::KeepAlive_5
            | PacketName::KeepAlive_47 | PacketName::KeepAlive_340 | PacketName::Chat_5 | PacketName::Chat_47 => from_session_packet(name, vals),
            _ => from_world_packet(name, vals),
        }
    }
}

/// Why `ap` has no encoding under `protocol`: a handshake that names a state
/// other than status or login, or an event the version cannot carry.
pub open spec fn encode_failure(ap: AbstractPacket, protocol: i32) -> EncodeError {
    match ap {
        AbstractPacket::SetProtocol { next_state, .. } => if handshake_target(next_state) {
            EncodeError::NoEncoding { protocol, event: EventKind::SetProtocol }
        } else {
            EncodeError::InvalidNextState { next_state }
        },
        _ => EncodeError::NoEncoding { protocol, event: event_kind(ap) },
    }
}

/// The versioned packet that carries `ap` under `protocol`, and its values;
/// `None` when that version has no encoding for it.
pub open spec fn outgoing(ap: AbstractPacket, protocol: i32) -> Option<(PacketName, Seq<ValueView>)> {
    match ap {
        AbstractPacket::SetProtocol { protocol_version, server_host, server_port, next_state } => if !handshake_target(next_state) {
            None
        } else {
            Some((
                PacketName::SetProtocol_5,
                seq![ValueView::Int(protocol_version.0 as i64), ValueView::Str(server_host@), ValueView::Int(server_port as i64), ValueView::Int(state_number(next_state))],
            ))
        },
        AbstractPacket::LoginStart { username } => Some((PacketName::LoginStart_5, seq![ValueView::Str(username@)])),
        AbstractPacket::ServerInfoRequest => Some((PacketName::PingStart_5, Seq::empty())),
        AbstractPacket::Ping { time } => Some((PacketName::Ping_5, seq![ValueView::Int(time)])),
        AbstractPacket::EncryptionBeginServerbound { shared_secret, verify_token } => Some((
            if protocol <= PROTO_1_7_6 { PacketName::EncryptionBeginServerbound_5 } else { PacketName::EncryptionBeginServerbound_47 },
            seq![ValueView::Bytes(shared_secret@), ValueView::Bytes(verify_token@)],
        )),
        AbstractPacket::KeepAlive { keep_alive_id } => if PROTO_1_7 <= protocol <= PROTO_1_7_6 {
            Some((PacketName::KeepAlive_5, seq![ValueView::Int((keep_alive_id as i32) as i64)]))
        } else if PROTO_1_8 <= protocol < PROTO_1_12_2 {
            Some((PacketName::KeepAlive_47, seq![ValueView::Int((keep_alive_id as i32) as i64)]))
        } else if PROTO_1_12_2 <= protocol <= PROTO_MAX {
            Some((PacketName::KeepAlive_340, seq![ValueView::Int(keep_alive_id)]))
        } else {
            None
        },
        AbstractPacket::PositionLookServerBound { x, y, head_y, z, yaw, pitch, on_ground } => if PROTO_1_7 <= protocol <= PROTO_1_7_6 {
            Some((
                PacketName::PositionLook_5,
                seq![
                    ValueView::Int(x as i64),
                    ValueView::Int(y as i64),
                    ValueView::Int(head_y as i64),
                    ValueView::Int(z as i64),
                    ValueView::Int(yaw as i64),
                    ValueView::Int(pitch as i64),
                    ValueView::Bool(on_ground),
                ],
            ))
        } else if PROTO_1_8 <= protocol <= PROTO_MAX {
            Some((
                PacketName::PositionLook_47,
                seq![
                    ValueView::Int(x as i64),
                    ValueView::Int(y as i64),
                    ValueView::Int(z as i64),
                    ValueView::Int(yaw as i64),
                    ValueView::Int(pitch as i64),
                    ValueView::Bool(on_ground),
                ],
            ))
        } else {
            None
        },
        AbstractPacket::ClientCommand { action_id } => if PROTO_1_7 <= protocol <= PROTO_1_7_6 {
            Some((PacketName::ClientCommand_5, seq![ValueView::Int((action_id as i8) as i64)]))
        } else if protocol == PROTO_1_8 {
            Some((PacketName::ClientCommand_47, seq![ValueView::Int(action_id as i64)]))
        } else if PROTO_1_9 <= protocol <= PROTO_MAX {
            Some((PacketName::ClientCommand_107, seq![ValueView::Int(action_id as i64)]))
        } else {
            None
        },
        AbstractPacket::ChatServerbound(message) => Some((PacketName::ChatServerbound_5, seq![ValueView::Str(message@)])),
        _ => None,
    }
}

fn number_of_state(s: ConnectionState) -> (r: i64)
    ensures
        r == state_number(s),
{
    match s {
        ConnectionState::Handshaking => 0,
        ConnectionState::Status => 1,
        ConnectionState::Login => 2,
        ConnectionState::Play => 3,
    }
}

impl AbstractPacket {
    /// The versioned packet that carries this event under `protocol`. Fails
    /// when that version has no encoding for it: an outgoing event is never
    /// dropped silently.
    pub fn to_packet(self, protocol: i32) -> (r: Result<Packet, EncodeError>)
        ensures
            match outgoing(self, protocol) {
                None => r == Err::<Packet, EncodeError>(encode_failure(self, protocol)),
                Some((n, vs)) => r matches Ok(p) && p.name == n && views(p.values@) == vs,
            },
    {
        let ghost me = self;
        let event = self.kind();
        let (name, values): (PacketName, Vec<Value>) = match self {
            AbstractPacket::SetProtocol { protocol_version, server_host, server_port, next_state } => {
                if next_state != ConnectionState::Status && next_state != ConnectionState::Login {
                    return Err(EncodeError::InvalidNextState { next_state });
                }
                (
                    PacketName::SetProtocol_5,
                    vec![
                        Value::Int(protocol_version.0 as i64),
                        Value::Str(server_host),
                        Value::Int(server_port as i64),
                        Value::Int(number_of_state(next_state)),
                    ],
                )
            },
            AbstractPacket::LoginStart { username } => (PacketName::LoginStart_5, vec![Value::Str(username)]),
            AbstractPacket::ServerInfoRequest => (PacketName::PingStart_5, Vec::new()),
            AbstractPacket::Ping { time } => (PacketName::Ping_5, vec![Value::Int(time)]),
            AbstractPacket::EncryptionBeginServerbound { shared_secret, verify_token } => (
                if protocol <= PROTO_1_7_6 {
                    PacketName::EncryptionBeginServerbound_5
                } else {
                    PacketName::EncryptionBeginServerbound_47
                },
                vec![Value::Bytes(shared_secret), Value::Bytes(verify_token)],
            ),
            AbstractPacket::KeepAlive { keep_alive_id } => {
                if PROTO_1_7 <= protocol && protocol <= PROTO_1_7_6 {
                    (PacketName::KeepAlive_5, vec![Value::Int((#[verifier::truncate] (keep_alive_id as i32)) as i64)])
                } else if PROTO_1_8 <= protocol && protocol < PROTO_1_12_2 {
                    (PacketName::KeepAlive_47, vec![Value::Int((#[verifier::truncate] (keep_alive_id as i32)) as i64)])
                } else if PROTO_1_12_2 <= protocol && protocol <= PROTO_MAX {
                    (PacketName::KeepAlive_340, vec![Value::Int(keep_alive_id)])
                } else {
                    return Err(EncodeError::NoEncoding { protocol, event });
                }
            },
            AbstractPacket::PositionLookServerBound { x, y, head_y, z, yaw, pitch, on_ground } => {
                let xv = Value::Int(#[verifier::truncate] (x as i64));
                let yv = Value::Int(#[verifier::truncate] (y as i64));
                let zv = Value::Int(#[verifier::truncate] (z as i64));
                let yaw_v = Value::Int(yaw as i64);
                let pitch_v = Value::Int(pitch as i64);
                if PROTO_1_7 <= protocol && protocol <= PROTO_1_7_6 {
                    (
                        PacketName::PositionLook_5,
                        vec![xv, yv, Value::Int(#[verifier::truncate] (head_y as i64)), zv, yaw_v, pitch_v, Value::Bool(on_ground)],
                    )
                } else if PROTO_1_8 <= protocol && protocol <= PROTO_MAX {
                    (PacketName::PositionLook_47, vec![xv, yv, zv, yaw_v, pitch_v, Value::Bool(on_ground)])
                } else {
                    return Err(EncodeError::NoEncoding { protocol, event });
                }
            },
            AbstractPacket::ClientCommand { action_id } => {
                if PROTO_1_7 <= protocol && protocol <= PROTO_1_7_6 {
                    (PacketName::ClientCommand_5, vec![Value::Int((#[verifier::truncate] (action_id as i8)) as i64)])
                } else if protocol == PROTO_1_8 {
                    (PacketName::ClientCommand_47, vec![Value::Int(action_id as i64)])
                } else if PROTO_1_9 <= protocol && protocol <= PROTO_MAX {
                    (PacketName::ClientCommand_107, vec![Value::Int(action_id as i64)])
                } else {
                    return Err(EncodeError::NoEncoding { protocol, event });
                }
            },
            AbstractPacket::ChatServerbound(message) => (PacketName::ChatServerbound_5, vec![Value::Str(message)]),
            _ => {
                return Err(EncodeError::NoEncoding { protocol, event });
            },
        };
        assert(outgoing(me, protocol) matches Some((n, vs)) && views(values@) =~= vs);
        Ok(Packet { name, values })
    }
}

/// Why a chunk payload could not be turned into columns.
#[derive(Debug, Clone, Copy, PartialEq, Eq, Structural)]
pub enum ChunkLoadError {
    /// The zlib stream is damaged or incomplete.
    Decompress,
    /// The columns need more bytes than the payload holds.
    Decode(ChunkDecodeError),
    /// A payload format this decoder does not slice.
    Unsupported,
}

pub open spec fn request_5(m: ChunkMetadata) -> ColumnRequest {
    ColumnRequest { x: m.chunk_x, z: m.chunk_z, mask: m.primary_bitmap, add_mask: m.add_bitmap }
}

pub open spec fn request_47(m: ChunkMetadata_47) -> ColumnRequest {
    ColumnRequest { x: m.chunk_x, z: m.chunk_z, mask: m.bitmap, add_mask: 0 }
}

pub open spec fn requests_of_5(meta: Seq<ChunkMetadata>) -> Seq<ColumnRequest> {
    Seq::new(meta.len(), |i: int| request_5(meta[i]))
}

pub open spec fn requests_of_47(meta: Seq<ChunkMetadata_47>) -> Seq<ColumnRequest> {
    Seq::new(meta.len(), |i: int| request_47(meta[i]))
}

/// `r` is the batch decoding of `data`, with a decoding error wrapped.
pub open spec fn load_outcome(
    r: Result<(Vec<LoadedColumn>, usize), ChunkLoadError>,
    layout: ChunkLayout,
    reqs: Seq<ColumnRequest>,
    sky_light: bool,
    ground_up: bool,
    data: Seq<u8>,
) -> bool {
    match r {
        Ok(x) => batch_decoded(Ok(x), layout, reqs, sky_light, ground_up, data),
        Err(ChunkLoadError::Decode(e)) => batch_decoded(Err(e), layout, reqs, sky_light, ground_up, data),
        Err(_) => false,
    }
}

fn requests_5(meta: &Vec<ChunkMetadata>) -> (r: Vec<ColumnRequest>)
    ensures
        r@ == requests_of_5(meta@),
{
    let mut r: Vec<ColumnRequest> = Vec::new();
    let mut i: usize = 0;
    while i < meta.len()
        invariant
            i <= meta@.len(),
            r@.len() == i,
            forall|j: int| 0 <= j < i ==> #[trigger] r@[j] == request_5(meta@[j]),
        decreases meta@.len() - i,
    {
        let m = meta[i];
        r.push(ColumnRequest { x: m.chunk_x, z: m.chunk_z, mask: m.primary_bitmap, add_mask: m.add_bitmap });
        i = i + 1;
    }
    assert(r@ =~= requests_of_5(meta@));
    r
}

fn requests_47(meta: &Vec<ChunkMetadata_47>) -> (r: Vec<ColumnRequest>)
    ensures
        r@ == requests_of_47(meta@),
{
    let mut r: Vec<ColumnRequest> = Vec::new();
    let mut i: usize = 0;
    while i < meta.len()
        invariant
            i <= meta@.len(),
            r@.len() == i,
            forall|j: int| 0 <= j < i ==> #[trigger] r@[j] == request_47(meta@[j]),
        decreases meta@.len() - i,
    {
        let m = meta[i];
        r.push(ColumnRequest { x: m.chunk_x, z: m.chunk_z, mask: m.bitmap, add_mask: 0 });
        i = i + 1;
    }
    assert(r@ =~= requests_of_47(meta@));
    r
}

fn load_batch(
    layout: ChunkLayout,
    reqs: &Vec<ColumnRequest>,
    sky_light: bool,
    ground_up: bool,
    data: &[u8],
) -> (r: Result<(Vec<LoadedColumn>, usize), ChunkLoadError>)
    ensures
        load_outcome(r, layout, reqs@, sky_light, ground_up, data@),
{
    match decode_batch(layout, reqs, sky_light, ground_up, data) {
        Ok(x) => Ok(x),
        Err(e) => Err(ChunkLoadError::Decode(e)),
    }
}

impl ChunkData {
    /// Slices the payload into columns: legacy payloads are inflated first
    /// and carry metadata arrays; batches carry biomes, single columns when
    /// `ground_up` says so. Gives the columns and the bytes they used.
    pub fn load(&self) -> (r: Result<(Vec<LoadedColumn>, usize), ChunkLoadError>)
        ensures
            match *self {
                ChunkData::Bulk_5 { sky_light_sent, data, meta } => match zlib_inflate(data@) {
                    None => r == Err::<(Vec<LoadedColumn>, usize), ChunkLoadError>(ChunkLoadError::Decompress),
                    Some(d) => load_outcome(r, ChunkLayout::BlocksAndMetadata, requests_of_5(meta@), sky_light_sent, true, d),
                },
                ChunkData::Bulk_47 { sky_light_sent, meta, data } => load_outcome(
                    r,
                    ChunkLayout::Blocks,
                    requests_of_47(meta@),
                    sky_light_sent,
                    true,
                    data@,
                ),
                ChunkData::Single_5 { x, z, ground_up, bit_map, add_bit_map, compressed_chunk_data } => match zlib_inflate(compressed_chunk_data@) {
                    None => r == Err::<(Vec<LoadedColumn>, usize), ChunkLoadError>(ChunkLoadError::Decompress),
                    Some(d) => load_outcome(r, ChunkLayout::BlocksAndMetadata, seq![ColumnRequest { x, z, mask: bit_map, add_mask: add_bit_map }], false, ground_up, d),
                },
                ChunkData::Single_47 { x, z, ground_up, bit_map, chunk_data } => load_outcome(
                    r,
                    ChunkLayout::Blocks,
                    seq![ColumnRequest { x, z, mask: bit_map, add_mask: 0 }],
                    false,
                    ground_up,
                    chunk_data@,
                ),
                _ => r == Err::<(Vec<LoadedColumn>, usize), ChunkLoadError>(ChunkLoadError::Unsupported),
            },
    {
        match self {
            ChunkData::Bulk_5 { sky_light_sent, data, meta } => {
                let d = match inflate(data.as_slice()) {
                    Some(d) => d,
                    None => {
                        return Err(ChunkLoadError::Decompress);
                    },
                };
                let reqs = requests_5(meta);
                load_batch(ChunkLayout::BlocksAndMetadata, &reqs, *sky_light_sent, true, d.as_slice())
            },
            ChunkData::Bulk_47 { sky_light_sent, meta, data } => {
                let reqs = requests_47(meta);
                load_batch(ChunkLayout::Blocks, &reqs, *sky_light_sent, true, data.as_slice())
            },
            ChunkData::Single_5 { x, z, ground_up, bit_map, add_bit_map, compressed_chunk_data } => {
                let d = match inflate(compressed_chunk_data.as_slice()) {
                    Some(d) => d,
                    None => {
                        return Err(ChunkLoadError::Decompress);
                    },
                };
                let reqs = vec![ColumnRequest { x: *x, z: *z, mask: *bit_map, add_mask: *add_bit_map }];
                assert(reqs@ =~= seq![ColumnRequest { x: *x, z: *z, mask: *bit_map, add_mask: *add_bit_map }]);
                load_batch(ChunkLayout::BlocksAndMetadata, &reqs, false, *ground_up, d.as_slice())
            },
            ChunkData::Single_47 { x, z, ground_up, bit_map, chunk_data } => {
                let reqs = vec![ColumnRequest { x: *x, z: *z, mask: *bit_map, add_mask: 0 }];
                assert(reqs@ =~= seq![ColumnRequest { x: *x, z: *z, mask: *bit_map, add_mask: 0 }]);
                load_batch(ChunkLayout::Blocks, &reqs, false, *ground_up, chunk_data.as_slice())
            },
            _ => Err(ChunkLoadError::Unsupported),
        }
    }
}

} // verus!

use vstd::prelude::*;

use crate::codec::RawPacket;
use crate::error::{DecodeError, EncodeError};
use crate::schema::{
    check_values_fit, payload_read, payload_wire, read_payload, values_fit, views, write_payload, Cond, CountKind, FieldKind,
    FieldSpec, RecordKind, Rule, Value,
};
use crate::state::{ConnectionState, PacketDirection};

verus! {

pub const PROTO_1_7: i32 = 4;
pub const PROTO_1_7_6: i32 = 5;
pub const PROTO_1_8: i32 = 47;
pub const PROTO_1_9: i32 = 107;
pub const PROTO_1_9_2: i32 = 109;
pub const PROTO_1_9_4: i32 = 110;
pub const PROTO_1_10: i32 = 210;
pub const PROTO_1_11: i32 = 315;
pub const PROTO_1_12: i32 = 335;
pub const PROTO_1_12_1: i32 = 338;
pub const PROTO_1_12_2: i32 = 340;
/// The newest protocol number this client knows of.
pub const PROTO_MAX: i32 = 760;

/// A wire protocol revision a connection may speak; fixed for its lifetime.
#[derive(Debug, Clone, Copy, PartialEq, Eq, Structural)]
pub enum ProtocolVersion {
    Proto1_7,
    Proto1_7_6,
    Proto1_8,
    Proto1_9,
    Proto1_9_2,
    Proto1_9_4,
    Proto1_10,
    Proto1_11,
    Proto1_12,
    Proto1_12_1,
    Proto1_12_2,
}

/// The protocol number of each version.
pub open spec fn protocol_number(v: ProtocolVersion) -> i32 {
    match v {
        ProtocolVersion::Proto1_7 => PROTO_1_7,
        ProtocolVersion::Proto1_7_6 => PROTO_1_7_6,
        ProtocolVersion::Proto1_8 => PROTO_1_8,
        ProtocolVersion::Proto1_9 => PROTO_1_9,
        ProtocolVersion::Proto1_9_2 => PROTO_1_9_2,
        ProtocolVersion::Proto1_9_4 => PROTO_1_9_4,
        ProtocolVersion::Proto1_10 => PROTO_1_10,
        ProtocolVersion::Proto1_11 => PROTO_1_11,
        ProtocolVersion::Proto1_12 => PROTO_1_12,
        ProtocolVersion::Proto1_12_1 => PROTO_1_12_1,
        ProtocolVersion::Proto1_12_2 => PROTO_1_12_2,
    }
}

impl ProtocolVersion {
    /// The protocol number sent in the handshake.
    pub fn number(&self) -> (r: i32)
        ensures
            r == protocol_number(*self),
    {
        match self {
            ProtocolVersion::Proto1_7 => PROTO_1_7,
            ProtocolVersion::Proto1_7_6 => PROTO_1_7_6,
            ProtocolVersion::Proto1_8 => PROTO_1_8,
            ProtocolVersion::Proto1_9 => PROTO_1_9,
            ProtocolVersion::Proto1_9_2 => PROTO_1_9_2,
            ProtocolVersion::Proto1_9_4 => PROTO_1_9_4,
            ProtocolVersion::Proto1_10 => PROTO_1_10,
            ProtocolVersion::Proto1_11 => PROTO_1_11,
            ProtocolVersion::Proto1_12 => PROTO_1_12,
            ProtocolVersion::Proto1_12_1 => PROTO_1_12_1,
            ProtocolVersion::Proto1_12_2 => PROTO_1_12_2,
        }
    }
}

/// The versioned packet layouts this client knows, by their names.
#[allow(non_camel_case_types)]
#[derive(Debug, Clone, Copy, PartialEq, Eq, Structural)]
pub enum PacketName {
    Abilities_5,
    AdvancementTab_335,
    Animation_5,
    ArmAnimation_5,
    ArmAnimation_47,
    ArmAnimation_107,
    AttachEntity_5,
    AttachEntity_107,
    Bed_5,
    Bed_47,
    BlockAction_5,
    BlockAction_47,
    BlockBreakAnimation_5,
    BlockBreakAnimation_47,
    BlockChange_5,
    BlockChange_47,
    BlockDig_5,
    BlockDig_47,
    BlockPlace_5,
    BlockPlace_47,
    BlockPlace_107,
    BlockPlace_315,
    BossBar_107,
    Camera_47,
    Chat_5,
    Chat_47,
    ChatServerbound_5,
    ClientCommand_5,
    ClientCommand_47,
    ClientCommand_107,
    CloseWindow_5,
    Collect_5,
    Collect_47,
    Collect_315,
    CombatEvent_47,
    Compress_47,
    CraftProgressBar_5,
    CraftRecipeRequest_338,
    CraftRecipeResponse_338,
    CustomPayload_5,
    CustomPayload_47,
    Difficulty_47,
    Disconnect_5,
    EnchantItem_5,
    EncryptionBegin_5,
    EncryptionBegin_47,
    EncryptionBeginServerbound_5,
    EncryptionBeginServerbound_47,
    Entity_5,
    Entity_47,
    EntityAction_5,
    EntityAction_47,
    EntityDestroy_5,
    EntityDestroy_47,
    EntityEffect_5,
    EntityEffect_47,
    EntityEffect_107,
    EntityEquipment_5,
    EntityEquipment_47,
    EntityEquipment_107,
    EntityHeadRotation_5,
    EntityHeadRotation_47,
    EntityLook_5,
    EntityLook_47,
    EntityMetadata_5,
    EntityMetadata_47,
    EntityMoveLook_5,
    EntityMoveLook_47,
    EntityMoveLook_107,
    EntityStatus_5,
    EntityTeleport_5,
    EntityTeleport_47,
    EntityTeleport_107,
    EntityVelocity_5,
    EntityVelocity_47,
    Experience_5,
    Experience_47,
    Explosion_5,
    Flying_5,
    GameStateChange_5,
    HeldItemSlot_5,
    KeepAlive_5,
    KeepAlive_47,
    KeepAlive_340,
    KickDisconnect_5,
    LegacyServerListPing_5,
    Login_5,
    Login_47,
    Login_109,
    LoginStart_5,
    Look_5,
    Map_5,
    MapChunk_5,
    MapChunk_47,
    MapChunk_107,
    MapChunk_110,
    MapChunkBulk_5,
    MapChunkBulk_47,
    MultiBlockChange_5,
    MultiBlockChange_47,
    NamedEntitySpawn_47,
    NamedEntitySpawn_107,
    NamedSoundEffect_5,
    NamedSoundEffect_107,
    NamedSoundEffect_210,
    OpenSignEntity_5,
    OpenSignEntity_47,
    OpenWindow_5,
    Ping_5,
    PingStart_5,
    PlayerInfo_5,
    PlayerlistHeader_47,
    Position_5,
    Position_47,
    Position_107,
    PositionLook_5,
    PositionLook_47,
    RelEntityMove_5,
    RelEntityMove_47,
    RelEntityMove_107,
    RemoveEntityEffect_5,
    RemoveEntityEffect_47,
    ResourcePackReceive_47,
    ResourcePackReceive_210,
    ResourcePackSend_47,
    Respawn_5,
    ScoreboardDisplayObjective_5,
    ScoreboardObjective_5,
    ScoreboardObjective_47,
    ScoreboardScore_5,
    ScoreboardScore_47,
    ServerInfo_5,
    SetCompression_47,
    SetCooldown_107,
    SetCreativeSlot_5,
    SetPassengers_107,
    SetProtocol_5,
    SetSlot_5,
    Settings_5,
    Settings_47,
    Settings_107,
    SoundEffect_107,
    SoundEffect_210,
    SpawnEntity_107,
    SpawnEntityExperienceOrb_5,
    SpawnEntityExperienceOrb_107,
    SpawnEntityLiving_5,
    SpawnEntityLiving_107,
    SpawnEntityLiving_315,
    SpawnEntityPainting_5,
    SpawnEntityPainting_47,
    SpawnEntityPainting_107,
    SpawnEntityWeather_5,
    SpawnEntityWeather_107,
    SpawnPosition_5,
    SpawnPosition_47,
    Spectate_47,
    SteerBoat_107,
    SteerVehicle_5,
    SteerVehicle_47,
    Success_5,
    TeleportConfirm_107,
    Title_47,
    Transaction_5,
    Transaction_47,
    UnloadChunk_107,
    UpdateHealth_5,
    UpdateHealth_47,
    UpdateSign_5,
    UpdateSign_47,
    UpdateTime_5,
    UseEntity_5,
    UseEntity_47,
    UseEntity_107,
    UseItem_107,
    VehicleMove_107,
    WindowClick_5,
    WindowClick_47,
    WorldBorder_47,
    WorldEvent_5,
    WorldEvent_47,
    WorldParticles_5,
}

/// One table entry: the packet with this name has this id in this state and
/// direction, and this layout.
#[derive(Debug, Clone)]
pub struct PacketSchema {
    pub name: PacketName,
    pub state: ConnectionState,
    pub direction: PacketDirection,
    pub id: i32,
    pub fields: Vec<FieldSpec>,
}

/// Whether this client has a packet table for `v`.
pub open spec fn has_table(v: ProtocolVersion) -> bool {
    v is Proto1_7_6 || v is Proto1_8 || v is Proto1_9_2 || v is Proto1_12 || v is Proto1_12_2
}

/// Every packet one protocol version carries. A table is data: no version's
/// table borrows from another's.
#[derive(Debug, Clone)]
pub struct VersionTable {
    pub protocol: i32,
    pub packets: Vec<PacketSchema>,
}

/// The tables of the supported versions, looked up by protocol number.
#[derive(Debug, Clone)]
pub struct Registry {
    pub tables: Vec<VersionTable>,
}

/// A decoded versioned packet: its layout's name and its field values in
/// layout order.
#[derive(Debug, Clone)]
pub struct Packet {
    pub name: PacketName,
    pub values: Vec<Value>,
}

/// The first entry from `k` on with this id, state and direction.
pub open spec fn find_by_id(t: Seq<PacketSchema>, state: ConnectionState, dir: PacketDirection, id: i32, k: int) -> Option<int>
    decreases t.len() - k,
{
    if k < 0 || k >= t.len() {
        None
    } else if t[k].state == state && t[k].direction == dir && t[k].id == id {
        Some(k)
    } else {
        find_by_id(t, state, dir, id, k + 1)
    }
}

/// The first entry from `k` on with this name, state and direction.
pub open spec fn find_by_name(t: Seq<PacketSchema>, state: ConnectionState, dir: PacketDirection, name: PacketName, k: int) -> Option<int>
    decreases t.len() - k,
{
    if k < 0 || k >= t.len() {
        None
    } else if t[k].state == state && t[k].direction == dir && t[k].name == name {
        Some(k)
    } else {
        find_by_name(t, state, dir, name, k + 1)
    }
}

/// The first table from `k` on for this protocol number.
pub open spec fn find_table(t: Seq<VersionTable>, protocol: i32, k: int) -> Option<int>
    decreases t.len() - k,
{
    if k < 0 || k >= t.len() {
        None
    } else if t[k].protocol == protocol {
        Some(k)
    } else {
        find_table(t, protocol, k + 1)
    }
}

proof fn lemma_find_by_id_in_range(t: Seq<PacketSchema>, state: ConnectionState, dir: PacketDirection, id: i32, k: int)
    ensures
        find_by_id(t, state, dir, id, k) matches Some(j) ==> 0 <= j < t.len() && t[j].state == state && t[j].direction == dir && t[j].id == id,
    decreases t.len() - k,
{
    if 0 <= k < t.len() {
        lemma_find_by_id_in_range(t, state, dir, id, k + 1);
    }
}

proof fn lemma_find_by_name_in_range(t: Seq<PacketSchema>, state: ConnectionState, dir: PacketDirection, name: PacketName, k: int)
    ensures
        find_by_name(t, state, dir, name, k) matches Some(j) ==> 0 <= j < t.len() && t[j].state == state && t[j].direction == dir && t[j].name == name,
    decreases t.len() - k,
{
    if 0 <= k < t.len() {
        lemma_find_by_name_in_range(t, state, dir, name, k + 1);
    }
}

proof fn lemma_find_table_in_range(t: Seq<VersionTable>, protocol: i32, k: int)
    ensures
        find_table(t, protocol, k) matches Some(j) ==> 0 <= j < t.len() && t[j].protocol == protocol,
    decreases t.len() - k,
{
    if 0 <= k < t.len() {
        lemma_find_table_in_range(t, protocol, k + 1);
    }
}

/// A field that is always on the wire.
pub open spec fn field_always(kind: FieldKind) -> FieldSpec {
    FieldSpec { kind, rule: Rule::Always }
}

/// A field on the wire only when `c` holds.
pub open spec fn field_when(kind: FieldKind, c: Cond) -> FieldSpec {
    FieldSpec { kind, rule: Rule::When(c) }
}

/// A field holding the element count of field `target`.
pub open spec fn field_count_for(kind: FieldKind, target: usize) -> FieldSpec {
    FieldSpec { kind, rule: Rule::CountFor(target) }
}

fn always(kind: FieldKind) -> (r: FieldSpec)
    ensures
        r == field_always(kind),
{
    FieldSpec { kind, rule: Rule::Always }
}

fn when(kind: FieldKind, c: Cond) -> (r: FieldSpec)
    ensures
        r == field_when(kind, c),
{
    FieldSpec { kind, rule: Rule::When(c) }
}

fn count_for(kind: FieldKind, target: usize) -> (r: FieldSpec)
    ensures
        r == field_count_for(kind, target),
{
    FieldSpec { kind, rule: Rule::CountFor(target) }
}

/// The wire layout of each packet, field by field.
pub open spec fn layout_spec(name: PacketName) -> Seq<FieldSpec> {
    match name {
        PacketName::Abilities_5 => seq![field_always(FieldKind::I8), field_always(FieldKind::F32), field_always(FieldKind::F32)],
        PacketName::AdvancementTab_335 => seq![field_always(FieldKind::VarInt), field_when(FieldKind::Str, Cond::OneOf { field: 0, a: 0, b: 0 })],
        PacketName::Animation_5 => seq![field_always(FieldKind::VarInt), field_always(FieldKind::U8)],
        PacketName::ArmAnimation_5 => seq![field_always(FieldKind::I32), field_always(FieldKind::I8)],
        PacketName::ArmAnimation_47 => Seq::empty(),
        PacketName::ArmAnimation_107 => seq![field_always(FieldKind::VarInt)],
        PacketName::AttachEntity_5 => seq![field_always(FieldKind::I32), field_always(FieldKind::I32), field_always(FieldKind::Bool)],
        PacketName::AttachEntity_107 => seq![field_always(FieldKind::I32), field_always(FieldKind::I32)],
        PacketName::Bed_5 => seq![field_always(FieldKind::I32), field_always(FieldKind::PositionIBI)],
        PacketName::Bed_47 => seq![field_always(FieldKind::VarInt), field_always(FieldKind::Position)],
        PacketName::BlockAction_5 => seq![field_always(FieldKind::PositionISI), field_always(FieldKind::U8), field_always(FieldKind::U8), field_always(FieldKind::VarInt)],
        PacketName::BlockAction_47 => seq![field_always(FieldKind::Position), field_always(FieldKind::U8), field_always(FieldKind::U8), field_always(FieldKind::VarInt)],
        PacketName::BlockBreakAnimation_5 => seq![field_always(FieldKind::VarInt), field_always(FieldKind::PositionIII), field_always(FieldKind::I8)],
        PacketName::BlockBreakAnimation_47 => seq![field_always(FieldKind::VarInt), field_always(FieldKind::Position), field_always(FieldKind::I8)],
        PacketName::BlockChange_5 => seq![field_always(FieldKind::PositionIBI), field_always(FieldKind::VarInt), field_always(FieldKind::U8)],
        PacketName::BlockChange_47 => seq![field_always(FieldKind::Position), field_always(FieldKind::VarInt)],
        PacketName::BlockDig_5 => seq![field_always(FieldKind::I8), field_always(FieldKind::PositionIBI), field_always(FieldKind::I8)],
        PacketName::BlockDig_47 => seq![field_always(FieldKind::VarInt), field_always(FieldKind::Position), field_always(FieldKind::I8)],
        PacketName::BlockPlace_5 => seq![field_always(FieldKind::PositionIBI), field_always(FieldKind::I8), field_always(FieldKind::Slot), field_always(FieldKind::I8), field_always(FieldKind::I8), field_always(FieldKind::I8)],
        PacketName::BlockPlace_47 => seq![field_always(FieldKind::Position), field_always(FieldKind::I8), field_always(FieldKind::Slot), field_always(FieldKind::I8), field_always(FieldKind::I8), field_always(FieldKind::I8)],
        PacketName::BlockPlace_107 => seq![field_always(FieldKind::Position), field_always(FieldKind::VarInt), field_always(FieldKind::VarInt), field_always(FieldKind::I8), field_always(FieldKind::I8), field_always(FieldKind::I8)],
        PacketName::BlockPlace_315 => seq![field_always(FieldKind::Position), field_always(FieldKind::VarInt), field_always(FieldKind::VarInt), field_always(FieldKind::F32), field_always(FieldKind::F32), field_always(FieldKind::F32)],
        PacketName::BossBar_107 => seq![field_always(FieldKind::U128), field_always(FieldKind::VarInt), field_when(FieldKind::Str, Cond::OneOf { field: 1, a: 0, b: 3 }), field_when(FieldKind::F32, Cond::OneOf { field: 1, a: 0, b: 2 }), field_when(FieldKind::VarInt, Cond::OneOf { field: 1, a: 0, b: 4 }), field_when(FieldKind::VarInt, Cond::OneOf { field: 1, a: 0, b: 4 }), field_when(FieldKind::U8, Cond::OneOf { field: 1, a: 0, b: 5 })],
        PacketName::Camera_47 => seq![field_always(FieldKind::VarInt)],
        PacketName::Chat_5 => seq![field_always(FieldKind::Str)],
        PacketName::Chat_47 => seq![field_always(FieldKind::Str), field_always(FieldKind::I8)],
        PacketName::ChatServerbound_5 => seq![field_always(FieldKind::Str)],
        PacketName::ClientCommand_5 => seq![field_always(FieldKind::I8)],
        PacketName::ClientCommand_47 => seq![field_always(FieldKind::VarInt)],
        PacketName::ClientCommand_107 => seq![field_always(FieldKind::VarInt)],
        PacketName::CloseWindow_5 => seq![field_always(FieldKind::U8)],
        PacketName::Collect_5 => seq![field_always(FieldKind::I32), field_always(FieldKind::I32)],
        PacketName::Collect_47 => seq![field_always(FieldKind::VarInt), field_always(FieldKind::VarInt)],
        PacketName::Collect_315 => seq![field_always(FieldKind::VarInt), field_always(FieldKind::VarInt), field_always(FieldKind::VarInt)],
        PacketName::CombatEvent_47 => seq![field_always(FieldKind::VarInt), field_when(FieldKind::VarInt, Cond::OneOf { field: 0, a: 1, b: 1 }), field_when(FieldKind::VarInt, Cond::OneOf { field: 0, a: 2, b: 2 }), field_when(FieldKind::I32, Cond::OneOf { field: 0, a: 1, b: 2 }), field_when(FieldKind::Str, Cond::OneOf { field: 0, a: 2, b: 2 })],
        PacketName::Compress_47 => seq![field_always(FieldKind::VarInt)],
        PacketName::CraftProgressBar_5 => seq![field_always(FieldKind::U8), field_always(FieldKind::I16), field_always(FieldKind::I16)],
        PacketName::CraftRecipeRequest_338 => seq![field_always(FieldKind::I8), field_always(FieldKind::VarInt), field_always(FieldKind::Bool)],
        PacketName::CraftRecipeResponse_338 => seq![field_always(FieldKind::I8), field_always(FieldKind::VarInt)],
        PacketName::CustomPayload_5 => seq![field_always(FieldKind::Str), field_always(FieldKind::Bytes(CountKind::I16))],
        PacketName::CustomPayload_47 => seq![field_always(FieldKind::Str), field_always(FieldKind::Bytes(CountKind::Rest))],
        PacketName::Difficulty_47 => seq![field_always(FieldKind::U8)],
        PacketName::Disconnect_5 => seq![field_always(FieldKind::Str)],
        PacketName::EnchantItem_5 => seq![field_always(FieldKind::I8), field_always(FieldKind::I8)],
        PacketName::EncryptionBegin_5 => seq![field_always(FieldKind::Str), field_always(FieldKind::Bytes(CountKind::I16)), field_always(FieldKind::Bytes(CountKind::I16))],
        PacketName::EncryptionBegin_47 => seq![field_always(FieldKind::Str), field_always(FieldKind::Bytes(CountKind::VarInt)), field_always(FieldKind::Bytes(CountKind::VarInt))],
        PacketName::EncryptionBeginServerbound_5 => seq![field_always(FieldKind::Bytes(CountKind::I16)), field_always(FieldKind::Bytes(CountKind::I16))],
        PacketName::EncryptionBeginServerbound_47 => seq![field_always(FieldKind::Bytes(CountKind::VarInt)), field_always(FieldKind::Bytes(CountKind::VarInt))],
        PacketName::Entity_5 => seq![field_always(FieldKind::I32)],
        PacketName::Entity_47 => seq![field_always(FieldKind::VarInt)],
        PacketName::EntityAction_5 => seq![field_always(FieldKind::I32), field_always(FieldKind::I8), field_always(FieldKind::I32)],
        PacketName::EntityAction_47 => seq![field_always(FieldKind::VarInt), field_always(FieldKind::VarInt), field_always(FieldKind::VarInt)],
        PacketName::EntityDestroy_5 => seq![field_always(FieldKind::Array(CountKind::I8, RecordKind::I32))],
        PacketName::EntityDestroy_47 => seq![field_always(FieldKind::Array(CountKind::VarInt, RecordKind::VarInt))],
        PacketName::EntityEffect_5 => seq![field_always(FieldKind::I32), field_always(FieldKind::I8), field_always(FieldKind::I8), field_always(FieldKind::I16)],
        PacketName::EntityEffect_47 => seq![field_always(FieldKind::VarInt), field_always(FieldKind::I8), field_always(FieldKind::I8), field_always(FieldKind::VarInt), field_always(FieldKind::Bool)],
        PacketName::EntityEffect_107 => seq![field_always(FieldKind::VarInt), field_always(FieldKind::I8), field_always(FieldKind::I8), field_always(FieldKind::VarInt), field_always(FieldKind::I8)],
        PacketName::EntityEquipment_5 => seq![field_always(FieldKind::I32), field_always(FieldKind::I16), field_always(FieldKind::Slot)],
        PacketName::EntityEquipment_47 => seq![field_always(FieldKind::VarInt), field_always(FieldKind::I16), field_always(FieldKind::Slot)],
        PacketName::EntityEquipment_107 => seq![field_always(FieldKind::VarInt), field_always(FieldKind::VarInt), field_always(FieldKind::Slot)],
        PacketName::EntityHeadRotation_5 => seq![field_always(FieldKind::I32), field_always(FieldKind::I8)],
        PacketName::EntityHeadRotation_47 => seq![field_always(FieldKind::VarInt), field_always(FieldKind::I8)],
        PacketName::EntityLook_5 => seq![field_always(FieldKind::I32), field_always(FieldKind::I8), field_always(FieldKind::I8)],
        PacketName::EntityLook_47 => seq![field_always(FieldKind::VarInt), field_always(FieldKind::I8), field_always(FieldKind::I8), field_always(FieldKind::Bool)],
        PacketName::EntityMetadata_5 => seq![field_always(FieldKind::I32), field_always(FieldKind::Meta)],
        PacketName::EntityMetadata_47 => seq![field_always(FieldKind::VarInt), field_always(FieldKind::Meta)],
        PacketName::EntityMoveLook_5 => seq![field_always(FieldKind::I32), field_always(FieldKind::I8), field_always(FieldKind::I8), field_always(FieldKind::I8), field_always(FieldKind::I8), field_always(FieldKind::I8)],
        PacketName::EntityMoveLook_47 => seq![field_always(FieldKind::VarInt), field_always(FieldKind::I8), field_always(FieldKind::I8), field_always(FieldKind::I8), field_always(FieldKind::I8), field_always(FieldKind::I8), field_always(FieldKind::Bool)],
        PacketName::EntityMoveLook_107 => seq![field_always(FieldKind::VarInt), field_always(FieldKind::I16), field_always(FieldKind::I16), field_always(FieldKind::I16), field_always(FieldKind::I8), field_always(FieldKind::I8), field_always(FieldKind::Bool)],
        PacketName::EntityStatus_5 => seq![field_always(FieldKind::I32), field_always(FieldKind::I8)],
        PacketName::EntityTeleport_5 => seq![field_always(FieldKind::I32), field_always(FieldKind::I32), field_always(FieldKind::I32), field_always(FieldKind::I32), field_always(FieldKind::I8), field_always(FieldKind::I8)],
        PacketName::EntityTeleport_47 => seq![field_always(FieldKind::VarInt), field_always(FieldKind::I32), field_always(FieldKind::I32), field_always(FieldKind::I32), field_always(FieldKind::I8), field_always(FieldKind::I8), field_always(FieldKind::Bool)],
        PacketName::EntityTeleport_107 => seq![field_always(FieldKind::VarInt), field_always(FieldKind::F64), field_always(FieldKind::F64), field_always(FieldKind::F64), field_always(FieldKind::I8), field_always(FieldKind::I8), field_always(FieldKind::Bool)],
        PacketName::EntityVelocity_5 => seq![field_always(FieldKind::I32), field_always(FieldKind::I16), field_always(FieldKind::I16), field_always(FieldKind::I16)],
        PacketName::EntityVelocity_47 => seq![field_always(FieldKind::VarInt), field_always(FieldKind::I16), field_always(FieldKind::I16), field_always(FieldKind::I16)],
        PacketName::Experience_5 => seq![field_always(FieldKind::F32), field_always(FieldKind::I16), field_always(FieldKind::I16)],
        PacketName::Experience_47 => seq![field_always(FieldKind::F32), field_always(FieldKind::VarInt), field_always(FieldKind::VarInt)],
        PacketName::Explosion_5 => seq![field_always(FieldKind::F32), field_always(FieldKind::F32), field_always(FieldKind::F32), field_always(FieldKind::F32), field_always(FieldKind::Array(CountKind::I32, RecordKind::Explosion)), field_always(FieldKind::F32), field_always(FieldKind::F32), field_always(FieldKind::F32)],
        PacketName::Flying_5 => seq![field_always(FieldKind::Bool)],
        PacketName::GameStateChange_5 => seq![field_always(FieldKind::U8), field_always(FieldKind::F32)],
        PacketName::HeldItemSlot_5 => seq![field_always(FieldKind::I8)],
        PacketName::KeepAlive_5 => seq![field_always(FieldKind::I32)],
        PacketName::KeepAlive_47 => seq![field_always(FieldKind::VarInt)],
        PacketName::KeepAlive_340 => seq![field_always(FieldKind::I64)],
        PacketName::KickDisconnect_5 => seq![field_always(FieldKind::Str)],
        PacketName::LegacyServerListPing_5 => seq![field_always(FieldKind::U8)],
        PacketName::Login_5 => seq![field_always(FieldKind::I32), field_always(FieldKind::U8), field_always(FieldKind::I8), field_always(FieldKind::U8), field_always(FieldKind::U8), field_always(FieldKind::Str)],
        PacketName::Login_47 => seq![field_always(FieldKind::I32), field_always(FieldKind::U8), field_always(FieldKind::I8), field_always(FieldKind::U8), field_always(FieldKind::U8), field_always(FieldKind::Str), field_always(FieldKind::Bool)],
        PacketName::Login_109 => seq![field_always(FieldKind::I32), field_always(FieldKind::U8), field_always(FieldKind::I32), field_always(FieldKind::U8), field_always(FieldKind::U8), field_always(FieldKind::Str), field_always(FieldKind::Bool)],
        PacketName::LoginStart_5 => seq![field_always(FieldKind::Str)],
        PacketName::Look_5 => seq![field_always(FieldKind::F32), field_always(FieldKind::F32), field_always(FieldKind::Bool)],
        PacketName::Map_5 => seq![field_always(FieldKind::VarInt), field_always(FieldKind::Bytes(CountKind::I16))],
        PacketName::MapChunk_5 => seq![field_always(FieldKind::I32), field_always(FieldKind::I32), field_always(FieldKind::Bool), field_always(FieldKind::U16), field_always(FieldKind::U16), field_always(FieldKind::Bytes(CountKind::I32))],
        PacketName::MapChunk_47 => seq![field_always(FieldKind::I32), field_always(FieldKind::I32), field_always(FieldKind::Bool), field_always(FieldKind::U16), field_always(FieldKind::Bytes(CountKind::VarInt))],
        PacketName::MapChunk_107 => seq![field_always(FieldKind::I32), field_always(FieldKind::I32), field_always(FieldKind::Bool), field_always(FieldKind::VarInt), field_always(FieldKind::Bytes(CountKind::VarInt))],
        PacketName::MapChunk_110 => seq![field_always(FieldKind::I32), field_always(FieldKind::I32), field_always(FieldKind::Bool), field_always(FieldKind::VarInt), field_always(FieldKind::Bytes(CountKind::VarInt)), field_always(FieldKind::Bytes(CountKind::Rest))],
        PacketName::MapChunkBulk_5 => seq![field_count_for(FieldKind::I16, 4), field_count_for(FieldKind::I32, 3), field_always(FieldKind::Bool), field_always(FieldKind::Bytes(CountKind::Field(1))), field_always(FieldKind::Array(CountKind::Field(0), RecordKind::ChunkMeta))],
        PacketName::MapChunkBulk_47 => seq![field_always(FieldKind::Bool), field_always(FieldKind::Array(CountKind::VarInt, RecordKind::ChunkMeta47)), field_always(FieldKind::Bytes(CountKind::Rest))],
        PacketName::MultiBlockChange_5 => seq![field_always(FieldKind::I32), field_always(FieldKind::I32), field_count_for(FieldKind::I16, 4), field_always(FieldKind::I32), field_always(FieldKind::Array(CountKind::Field(2), RecordKind::BlockChange5))],
        PacketName::MultiBlockChange_47 => seq![field_always(FieldKind::I32), field_always(FieldKind::I32), field_always(FieldKind::Array(CountKind::VarInt, RecordKind::BlockChange47))],
        PacketName::NamedEntitySpawn_47 => seq![field_always(FieldKind::VarInt), field_always(FieldKind::U128), field_always(FieldKind::I32), field_always(FieldKind::I32), field_always(FieldKind::I32), field_always(FieldKind::I8), field_always(FieldKind::I8), field_always(FieldKind::I16), field_always(FieldKind::Meta)],
        PacketName::NamedEntitySpawn_107 => seq![field_always(FieldKind::VarInt), field_always(FieldKind::U128), field_always(FieldKind::F64), field_always(FieldKind::F64), field_always(FieldKind::F64), field_always(FieldKind::I8), field_always(FieldKind::I8), field_always(FieldKind::Meta)],
        PacketName::NamedSoundEffect_5 => seq![field_always(FieldKind::Str), field_always(FieldKind::I32), field_always(FieldKind::I32), field_always(FieldKind::I32), field_always(FieldKind::F32), field_always(FieldKind::U8)],
        PacketName::NamedSoundEffect_107 => seq![field_always(FieldKind::Str), field_always(FieldKind::VarInt), field_always(FieldKind::I32), field_always(FieldKind::I32), field_always(FieldKind::I32), field_always(FieldKind::F32), field_always(FieldKind::U8)],
        PacketName::NamedSoundEffect_210 => seq![field_always(FieldKind::Str), field_always(FieldKind::VarInt), field_always(FieldKind::I32), field_always(FieldKind::I32), field_always(FieldKind::I32), field_always(FieldKind::F32), field_always(FieldKind::F32)],
        PacketName::OpenSignEntity_5 => seq![field_always(FieldKind::PositionIII)],
        PacketName::OpenSignEntity_47 => seq![field_always(FieldKind::Position)],
        PacketName::OpenWindow_5 => seq![field_always(FieldKind::U8), field_always(FieldKind::U8), field_always(FieldKind::Str), field_always(FieldKind::U8), field_always(FieldKind::Bool), field_when(FieldKind::I32, Cond::OneOf { field: 1, a: 11, b: 11 })],
        PacketName::Ping_5 => seq![field_always(FieldKind::I64)],
        PacketName::PingStart_5 => Seq::empty(),
        PacketName::PlayerInfo_5 => seq![field_always(FieldKind::Str), field_always(FieldKind::Bool), field_always(FieldKind::I16)],
        PacketName::PlayerlistHeader_47 => seq![field_always(FieldKind::Str), field_always(FieldKind::Str)],
        PacketName::Position_5 => seq![field_always(FieldKind::F64), field_always(FieldKind::F64), field_always(FieldKind::F64), field_always(FieldKind::F32), field_always(FieldKind::F32), field_always(FieldKind::Bool)],
        PacketName::Position_47 => seq![field_always(FieldKind::F64), field_always(FieldKind::F64), field_always(FieldKind::F64), field_always(FieldKind::F32), field_always(FieldKind::F32), field_always(FieldKind::I8)],
        PacketName::Position_107 => seq![field_always(FieldKind::F64), field_always(FieldKind::F64), field_always(FieldKind::F64), field_always(FieldKind::F32), field_always(FieldKind::F32), field_always(FieldKind::I8), field_always(FieldKind::VarInt)],
        PacketName::PositionLook_5 => seq![field_always(FieldKind::F64), field_always(FieldKind::F64), field_always(FieldKind::F64), field_always(FieldKind::F64), field_always(FieldKind::F32), field_always(FieldKind::F32), field_always(FieldKind::Bool)],
        PacketName::PositionLook_47 => seq![field_always(FieldKind::F64), field_always(FieldKind::F64), field_always(FieldKind::F64), field_always(FieldKind::F32), field_always(FieldKind::F32), field_always(FieldKind::Bool)],
        PacketName::RelEntityMove_5 => seq![field_always(FieldKind::I32), field_always(FieldKind::I8), field_always(FieldKind::I8), field_always(FieldKind::I8)],
        PacketName::RelEntityMove_47 => seq![field_always(FieldKind::VarInt), field_always(FieldKind::I8), field_always(FieldKind::I8), field_always(FieldKind::I8), field_always(FieldKind::Bool)],
        PacketName::RelEntityMove_107 => seq![field_always(FieldKind::VarInt), field_always(FieldKind::I16), field_always(FieldKind::I16), field_always(FieldKind::I16), field_always(FieldKind::Bool)],
        PacketName::RemoveEntityEffect_5 => seq![field_always(FieldKind::I32), field_always(FieldKind::I8)],
        PacketName::RemoveEntityEffect_47 => seq![field_always(FieldKind::VarInt), field_always(FieldKind::I8)],
        PacketName::ResourcePackReceive_47 => seq![field_always(FieldKind::Str), field_always(FieldKind::VarInt)],
        PacketName::ResourcePackReceive_210 => seq![field_always(FieldKind::VarInt)],
        PacketName::ResourcePackSend_47 => seq![field_always(FieldKind::Str), field_always(FieldKind::Str)],
        PacketName::Respawn_5 => seq![field_always(FieldKind::I32), field_always(FieldKind::U8), field_always(FieldKind::U8), field_always(FieldKind::Str)],
        PacketName::ScoreboardDisplayObjective_5 => seq![field_always(FieldKind::I8), field_always(FieldKind::Str)],
        PacketName::ScoreboardObjective_5 => seq![field_always(FieldKind::Str), field_always(FieldKind::Str), field_always(FieldKind::I8)],
        PacketName::ScoreboardObjective_47 => seq![field_always(FieldKind::Str), field_always(FieldKind::I8), field_when(FieldKind::Str, Cond::OneOf { field: 1, a: 0, b: 2 }), field_when(FieldKind::Str, Cond::OneOf { field: 1, a: 0, b: 2 })],
        PacketName::ScoreboardScore_5 => seq![field_always(FieldKind::Str), field_always(FieldKind::I8), field_when(FieldKind::Str, Cond::NotEq { field: 1, a: 1 }), field_when(FieldKind::I32, Cond::NotEq { field: 1, a: 1 })],
        PacketName::ScoreboardScore_47 => seq![field_always(FieldKind::Str), field_always(FieldKind::VarInt), field_always(FieldKind::Str), field_when(FieldKind::VarInt, Cond::NotEq { field: 1, a: 1 })],
        PacketName::ServerInfo_5 => seq![field_always(FieldKind::Str)],
        PacketName::SetCompression_47 => seq![field_always(FieldKind::VarInt)],
        PacketName::SetCooldown_107 => seq![field_always(FieldKind::VarInt), field_always(FieldKind::VarInt)],
        PacketName::SetCreativeSlot_5 => seq![field_always(FieldKind::I16), field_always(FieldKind::Slot)],
        PacketName::SetPassengers_107 => seq![field_always(FieldKind::VarInt), field_always(FieldKind::Array(CountKind::VarInt, RecordKind::VarInt))],
        PacketName::SetProtocol_5 => seq![field_always(FieldKind::VarInt), field_always(FieldKind::Str), field_always(FieldKind::U16), field_always(FieldKind::VarInt)],
        PacketName::SetSlot_5 => seq![field_always(FieldKind::I8), field_always(FieldKind::I16), field_always(FieldKind::Slot)],
        PacketName::Settings_5 => seq![field_always(FieldKind::Str), field_always(FieldKind::I8), field_always(FieldKind::I8), field_always(FieldKind::Bool), field_always(FieldKind::U8), field_always(FieldKind::Bool)],
        PacketName::Settings_47 => seq![field_always(FieldKind::Str), field_always(FieldKind::I8), field_always(FieldKind::I8), field_always(FieldKind::Bool), field_always(FieldKind::U8)],
        PacketName::Settings_107 => seq![field_always(FieldKind::Str), field_always(FieldKind::I8), field_always(FieldKind::VarInt), field_always(FieldKind::Bool), field_always(FieldKind::U8), field_always(FieldKind::VarInt)],
        PacketName::SoundEffect_107 => seq![field_always(FieldKind::VarInt), field_always(FieldKind::VarInt), field_always(FieldKind::I32), field_always(FieldKind::I32), field_always(FieldKind::I32), field_always(FieldKind::F32), field_always(FieldKind::U8)],
        PacketName::SoundEffect_210 => seq![field_always(FieldKind::VarInt), field_always(FieldKind::VarInt), field_always(FieldKind::I32), field_always(FieldKind::I32), field_always(FieldKind::I32), field_always(FieldKind::F32), field_always(FieldKind::F32)],
        PacketName::SpawnEntity_107 => seq![field_always(FieldKind::VarInt), field_always(FieldKind::U128), field_always(FieldKind::I8), field_always(FieldKind::F64), field_always(FieldKind::F64), field_always(FieldKind::F64), field_always(FieldKind::I8), field_always(FieldKind::I8), field_always(FieldKind::I32), field_always(FieldKind::I16), field_always(FieldKind::I16), field_always(FieldKind::I16)],
        PacketName::SpawnEntityExperienceOrb_5 => seq![field_always(FieldKind::VarInt), field_always(FieldKind::I32), field_always(FieldKind::I32), field_always(FieldKind::I32), field_always(FieldKind::I16)],
        PacketName::SpawnEntityExperienceOrb_107 => seq![field_always(FieldKind::VarInt), field_always(FieldKind::F64), field_always(FieldKind::F64), field_always(FieldKind::F64), field_always(FieldKind::I16)],
        PacketName::SpawnEntityLiving_5 => seq![field_always(FieldKind::VarInt), field_always(FieldKind::U8), field_always(FieldKind::I32), field_always(FieldKind::I32), field_always(FieldKind::I32), field_always(FieldKind::I8), field_always(FieldKind::I8), field_always(FieldKind::I8), field_always(FieldKind::I16), field_always(FieldKind::I16), field_always(FieldKind::I16), field_always(FieldKind::Meta)],
        PacketName::SpawnEntityLiving_107 => seq![field_always(FieldKind::VarInt), field_always(FieldKind::U128), field_always(FieldKind::U8), field_always(FieldKind::F64), field_always(FieldKind::F64), field_always(FieldKind::F64), field_always(FieldKind::I8), field_always(FieldKind::I8), field_always(FieldKind::I8), field_always(FieldKind::I16), field_always(FieldKind::I16), field_always(FieldKind::I16), field_always(FieldKind::Meta)],
        PacketName::SpawnEntityLiving_315 => seq![field_always(FieldKind::VarInt), field_always(FieldKind::U128), field_always(FieldKind::VarInt), field_always(FieldKind::F64), field_always(FieldKind::F64), field_always(FieldKind::F64), field_always(FieldKind::I8), field_always(FieldKind::I8), field_always(FieldKind::I8), field_always(FieldKind::I16), field_always(FieldKind::I16), field_always(FieldKind::I16), field_always(FieldKind::Meta)],
        PacketName::SpawnEntityPainting_5 => seq![field_always(FieldKind::VarInt), field_always(FieldKind::Str), field_always(FieldKind::PositionIII), field_always(FieldKind::I32)],
        PacketName::SpawnEntityPainting_47 => seq![field_always(FieldKind::VarInt), field_always(FieldKind::Str), field_always(FieldKind::Position), field_always(FieldKind::U8)],
        PacketName::SpawnEntityPainting_107 => seq![field_always(FieldKind::VarInt), field_always(FieldKind::U128), field_always(FieldKind::Str), field_always(FieldKind::Position), field_always(FieldKind::U8)],
        PacketName::SpawnEntityWeather_5 => seq![field_always(FieldKind::VarInt), field_always(FieldKind::I8), field_always(FieldKind::I32), field_always(FieldKind::I32), field_always(FieldKind::I32)],
        PacketName::SpawnEntityWeather_107 => seq![field_always(FieldKind::VarInt), field_always(FieldKind::I8), field_always(FieldKind::F64), field_always(FieldKind::F64), field_always(FieldKind::F64)],
        PacketName::SpawnPosition_5 => seq![field_always(FieldKind::PositionIII)],
        PacketName::SpawnPosition_47 => seq![field_always(FieldKind::Position)],
        PacketName::Spectate_47 => seq![field_always(FieldKind::U128)],
        PacketName::SteerBoat_107 => seq![field_always(FieldKind::Bool), field_always(FieldKind::Bool)],
        PacketName::SteerVehicle_5 => seq![field_always(FieldKind::F32), field_always(FieldKind::F32), field_always(FieldKind::Bool), field_always(FieldKind::Bool)],
        PacketName::SteerVehicle_47 => seq![field_always(FieldKind::F32), field_always(FieldKind::F32), field_always(FieldKind::U8)],
        PacketName::Success_5 => seq![field_always(FieldKind::Str), field_always(FieldKind::Str)],
        PacketName::TeleportConfirm_107 => seq![field_always(FieldKind::VarInt)],
        PacketName::Title_47 => seq![field_always(FieldKind::VarInt), field_when(FieldKind::Str, Cond::OneOf { field: 0, a: 0, b: 1 }), field_when(FieldKind::I32, Cond::OneOf { field: 0, a: 2, b: 2 }), field_when(FieldKind::I32, Cond::OneOf { field: 0, a: 2, b: 2 }), field_when(FieldKind::I32, Cond::OneOf { field: 0, a: 2, b: 2 })],
        PacketName::Transaction_5 => seq![field_always(FieldKind::U8), field_always(FieldKind::I16), field_always(FieldKind::Bool)],
        PacketName::Transaction_47 => seq![field_always(FieldKind::I8), field_always(FieldKind::I16), field_always(FieldKind::Bool)],
        PacketName::UnloadChunk_107 => seq![field_always(FieldKind::I32), field_always(FieldKind::I32)],
        PacketName::UpdateHealth_5 => seq![field_always(FieldKind::F32), field_always(FieldKind::I16), field_always(FieldKind::F32)],
        PacketName::UpdateHealth_47 => seq![field_always(FieldKind::F32), field_always(FieldKind::VarInt), field_always(FieldKind::F32)],
        PacketName::UpdateSign_5 => seq![field_always(FieldKind::PositionISI), field_always(FieldKind::Str), field_always(FieldKind::Str), field_always(FieldKind::Str), field_always(FieldKind::Str)],
        PacketName::UpdateSign_47 => seq![field_always(FieldKind::Position), field_always(FieldKind::Str), field_always(FieldKind::Str), field_always(FieldKind::Str), field_always(FieldKind::Str)],
        PacketName::UpdateTime_5 => seq![field_always(FieldKind::I64), field_always(FieldKind::I64)],
        PacketName::UseEntity_5 => seq![field_always(FieldKind::I32), field_always(FieldKind::I8), field_when(FieldKind::F32, Cond::OneOf { field: 1, a: 2, b: 2 }), field_when(FieldKind::F32, Cond::OneOf { field: 1, a: 2, b: 2 }), field_when(FieldKind::F32, Cond::OneOf { field: 1, a: 2, b: 2 })],
        PacketName::UseEntity_47 => seq![field_always(FieldKind::VarInt), field_always(FieldKind::VarInt), field_when(FieldKind::F32, Cond::OneOf { field: 1, a: 2, b: 2 }), field_when(FieldKind::F32, Cond::OneOf { field: 1, a: 2, b: 2 }), field_when(FieldKind::F32, Cond::OneOf { field: 1, a: 2, b: 2 })],
        PacketName::UseEntity_107 => seq![field_always(FieldKind::VarInt), field_always(FieldKind::VarInt), field_when(FieldKind::F32, Cond::OneOf { field: 1, a: 2, b: 2 }), field_when(FieldKind::F32, Cond::OneOf { field: 1, a: 2, b: 2 }), field_when(FieldKind::F32, Cond::OneOf { field: 1, a: 2, b: 2 }), field_when(FieldKind::VarInt, Cond::OneOf { field: 1, a: 0, b: 2 })],
        PacketName::UseItem_107 => seq![field_always(FieldKind::VarInt)],
        PacketName::VehicleMove_107 => seq![field_always(FieldKind::F64), field_always(FieldKind::F64), field_always(FieldKind::F64), field_always(FieldKind::F32), field_always(FieldKind::F32)],
        PacketName::WindowClick_5 => seq![field_always(FieldKind::I8), field_always(FieldKind::I16), field_always(FieldKind::I8), field_always(FieldKind::I16), field_always(FieldKind::I8), field_always(FieldKind::Slot)],
        PacketName::WindowClick_47 => seq![field_always(FieldKind::U8), field_always(FieldKind::I16), field_always(FieldKind::I8), field_always(FieldKind::I16), field_always(FieldKind::I8), field_always(FieldKind::Slot)],
        PacketName::WorldBorder_47 => seq![field_always(FieldKind::VarInt), field_when(FieldKind::F64, Cond::OneOf { field: 0, a: 0, b: 0 }), field_when(FieldKind::F64, Cond::OneOf { field: 0, a: 2, b: 3 }), field_when(FieldKind::F64, Cond::OneOf { field: 0, a: 2, b: 3 }), field_when(FieldKind::F64, Cond::OneOf { field: 0, a: 1, b: 3 }), field_when(FieldKind::F64, Cond::OneOf { field: 0, a: 1, b: 3 }), field_when(FieldKind::VarLong, Cond::OneOf { field: 0, a: 1, b: 3 }), field_when(FieldKind::VarInt, Cond::OneOf { field: 0, a: 3, b: 3 }), field_when(FieldKind::VarInt, Cond::OneOf { field: 0, a: 3, b: 4 }), field_when(FieldKind::VarInt, Cond::OneOf { field: 0, a: 3, b: 5 })],
        PacketName::WorldEvent_5 => seq![field_always(FieldKind::I32), field_always(FieldKind::PositionIBI), field_always(FieldKind::I32), field_always(FieldKind::Bool)],
        PacketName::WorldEvent_47 => seq![field_always(FieldKind::I32), field_always(FieldKind::Position), field_always(FieldKind::I32), field_always(FieldKind::Bool)],
        PacketName::WorldParticles_5 => seq![field_always(FieldKind::Str), field_always(FieldKind::F32), field_always(FieldKind::F32), field_always(FieldKind::F32), field_always(FieldKind::F32), field_always(FieldKind::F32), field_always(FieldKind::F32), field_always(FieldKind::F32), field_always(FieldKind::I32)],
    }
}

/// The wire layout of the packet with this name, field by field.
#[verifier::rlimit(100)]
pub fn layout(name: PacketName) -> (r: Vec<FieldSpec>)
    ensures
        r@ == layout_spec(name),
{
    match name {
        PacketName::Abilities_5 => {
            let v: Vec<FieldSpec> = vec![always(FieldKind::I8), always(FieldKind::F32), always(FieldKind::F32)];
            assert(v@ =~= layout_spec(PacketName::Abilities_5));
            v
        },
        PacketName::AdvancementTab_335 => {
            let v: Vec<FieldSpec> = vec![always(FieldKind::VarInt), when(FieldKind::Str, Cond::OneOf { field: 0, a: 0, b: 0 })];
            assert(v@ =~= layout_spec(PacketName::AdvancementTab_335));
            v
        },
        PacketName::Animation_5 => {
            let v: Vec<FieldSpec> = vec![always(FieldKind::VarInt), always(FieldKind::U8)];
            assert(v@ =~= layout_spec(PacketName::Animation_5));
            v
        },
        PacketName::ArmAnimation_5 => {
            let v: Vec<FieldSpec> = vec![always(FieldKind::I32), always(FieldKind::I8)];
            assert(v@ =~= layout_spec(PacketName::ArmAnimation_5));
            v
        },
        PacketName::ArmAnimation_47 => {
            let v: Vec<FieldSpec> = Vec::new();
            assert(v@ =~= layout_spec(PacketName::ArmAnimation_47));
            v
        },
        PacketName::ArmAnimation_107 => {
            let v: Vec<FieldSpec> = vec![always(FieldKind::VarInt)];
            assert(v@ =~= layout_spec(PacketName::ArmAnimation_107));
            v
        },
        PacketName::AttachEntity_5 => {
            let v: Vec<FieldSpec> = vec![always(FieldKind::I32), always(FieldKind::I32), always(FieldKind::Bool)];
            assert(v@ =~= layout_spec(PacketName::AttachEntity_5));
            v
        },
        PacketName::AttachEntity_107 => {
            let v: Vec<FieldSpec> = vec![always(FieldKind::I32), always(FieldKind::I32)];
            assert(v@ =~= layout_spec(PacketName::AttachEntity_107));
            v
        },
        PacketName::Bed_5 => {
            let v: Vec<FieldSpec> = vec![always(FieldKind::I32), always(FieldKind::PositionIBI)];
            assert(v@ =~= layout_spec(PacketName::Bed_5));
            v
        },
        PacketName::Bed_47 => {
            let v: Vec<FieldSpec> = vec![always(FieldKind::VarInt), always(FieldKind::Position)];
            assert(v@ =~= layout_spec(PacketName::Bed_47));
            v
        },
        PacketName::BlockAction_5 => {
            let v: Vec<FieldSpec> = vec![always(FieldKind::PositionISI), always(FieldKind::U8), always(FieldKind::U8), always(FieldKind::VarInt)];
            assert(v@ =~= layout_spec(PacketName::BlockAction_5));
            v
        },
        PacketName::BlockAction_47 => {
            let v: Vec<FieldSpec> = vec![always(FieldKind::Position), always(FieldKind::U8), always(FieldKind::U8), always(FieldKind::VarInt)];
            assert(v@ =~= layout_spec(PacketName::BlockAction_47));
            v
        },
        PacketName::BlockBreakAnimation_5 => {
            let v: Vec<FieldSpec> = vec![always(FieldKind::VarInt), always(FieldKind::PositionIII), always(FieldKind::I8)];
            assert(v@ =~= layout_spec(PacketName::BlockBreakAnimation_5));
            v
        },
        PacketName::BlockBreakAnimation_47 => {
            let v: Vec<FieldSpec> = vec![always(FieldKind::VarInt), always(FieldKind::Position), always(FieldKind::I8)];
            assert(v@ =~= layout_spec(PacketName::BlockBreakAnimation_47));
            v
        },
        PacketName::BlockChange_5 => {
            let v: Vec<FieldSpec> = vec![always(FieldKind::PositionIBI), always(FieldKind::VarInt), always(FieldKind::U8)];
            assert(v@ =~= layout_spec(PacketName::BlockChange_5));
            v
        },
        PacketName::BlockChange_47 => {
            let v: Vec<FieldSpec> = vec![always(FieldKind::Position), always(FieldKind::VarInt)];
            assert(v@ =~= layout_spec(PacketName::BlockChange_47));
            v
        },
        PacketName::BlockDig_5 => {
            let v: Vec<FieldSpec> = vec![always(FieldKind::I8), always(FieldKind::PositionIBI), always(FieldKind::I8)];
            assert(v@ =~= layout_spec(PacketName::BlockDig_5));
            v
        },
        PacketName::BlockDig_47 => {
            let v: Vec<FieldSpec> = vec![always(FieldKind::VarInt), always(FieldKind::Position), always(FieldKind::I8)];
            assert(v@ =~= layout_spec(PacketName::BlockDig_47));
            v
        },
        PacketName::BlockPlace_5 => {
            let v: Vec<FieldSpec> = vec![always(FieldKind::PositionIBI), always(FieldKind::I8), always(FieldKind::Slot), always(FieldKind::I8), always(FieldKind::I8), always(FieldKind::I8)];
            assert(v@ =~= layout_spec(PacketName::BlockPlace_5));
            v
        },
        PacketName::BlockPlace_47 => {
            let v: Vec<FieldSpec> = vec![always(FieldKind::Position), always(FieldKind::I8), always(FieldKind::Slot), always(FieldKind::I8), always(FieldKind::I8), always(FieldKind::I8)];
            assert(v@ =~= layout_spec(PacketName::BlockPlace_47));
            v
        },
        PacketName::BlockPlace_107 => {
            let v: Vec<FieldSpec> = vec![always(FieldKind::Position), always(FieldKind::VarInt), always(FieldKind::VarInt), always(FieldKind::I8), always(FieldKind::I8), always(FieldKind::I8)];
            assert(v@ =~= layout_spec(PacketName::BlockPlace_107));
            v
        },
        PacketName::BlockPlace_315 => {
            let v: Vec<FieldSpec> = vec![always(FieldKind::Position), always(FieldKind::VarInt), always(FieldKind::VarInt), always(FieldKind::F32), always(FieldKind::F32), always(FieldKind::F32)];
            assert(v@ =~= layout_spec(PacketName::BlockPlace_315));
            v
        },
        PacketName::BossBar_107 => {
            let v: Vec<FieldSpec> = vec![always(FieldKind::U128), always(FieldKind::VarInt), when(FieldKind::Str, Cond::OneOf { field: 1, a: 0, b: 3 }), when(FieldKind::F32, Cond::OneOf { field: 1, a: 0, b: 2 }), when(FieldKind::VarInt, Cond::OneOf { field: 1, a: 0, b: 4 }), when(FieldKind::VarInt, Cond::OneOf { field: 1, a: 0, b: 4 }), when(FieldKind::U8, Cond::OneOf { field: 1, a: 0, b: 5 })];
            assert(v@ =~= layout_spec(PacketName::BossBar_107));
            v
        },
        PacketName::Camera_47 => {
            let v: Vec<FieldSpec> = vec![always(FieldKind::VarInt)];
            assert(v@ =~= layout_spec(PacketName::Camera_47));
            v
        },
        PacketName::Chat_5 => {
            let v: Vec<FieldSpec> = vec![always(FieldKind::Str)];
            assert(v@ =~= layout_spec(PacketName::Chat_5));
            v
        },
        PacketName::Chat_47 => {
            let v: Vec<FieldSpec> = vec![always(FieldKind::Str), always(FieldKind::I8)];
            assert(v@ =~= layout_spec(PacketName::Chat_47));
            v
        },
        PacketName::ChatServerbound_5 => {
            let v: Vec<FieldSpec> = vec![always(FieldKind::Str)];
            assert(v@ =~= layout_spec(PacketName::ChatServerbound_5));
            v
        },
        PacketName::ClientCommand_5 => {
            let v: Vec<FieldSpec> = vec![always(FieldKind::I8)];
            assert(v@ =~= layout_spec(PacketName::ClientCommand_5));
            v
        },
        PacketName::ClientCommand_47 => {
            let v: Vec<FieldSpec> = vec![always(FieldKind::VarInt)];
            assert(v@ =~= layout_spec(PacketName::ClientCommand_47));
            v
        },
        PacketName::ClientCommand_107 => {
            let v: Vec<FieldSpec> = vec![always(FieldKind::VarInt)];
            assert(v@ =~= layout_spec(PacketName::ClientCommand_107));
            v
        },
        PacketName::CloseWindow_5 => {
            let v: Vec<FieldSpec> = vec![always(FieldKind::U8)];
            assert(v@ =~= layout_spec(PacketName::CloseWindow_5));
            v
        },
        PacketName::Collect_5 => {
            let v: Vec<FieldSpec> = vec![always(FieldKind::I32), always(FieldKind::I32)];
            assert(v@ =~= layout_spec(PacketName::Collect_5));
            v
        },
        PacketName::Collect_47 => {
            let v: Vec<FieldSpec> = vec![always(FieldKind::VarInt), always(FieldKind::VarInt)];
            assert(v@ =~= layout_spec(PacketName::Collect_47));
            v
        },
        PacketName::Collect_315 => {
            let v: Vec<FieldSpec> = vec![always(FieldKind::VarInt), always(FieldKind::VarInt), always(FieldKind::VarInt)];
            assert(v@ =~= layout_spec(PacketName::Collect_315));
            v
        },
        PacketName::CombatEvent_47 => {
            let v: Vec<FieldSpec> = vec![always(FieldKind::VarInt), when(FieldKind::VarInt, Cond::OneOf { field: 0, a: 1, b: 1 }), when(FieldKind::VarInt, Cond::OneOf { field: 0, a: 2, b: 2 }), when(FieldKind::I32, Cond::OneOf { field: 0, a: 1, b: 2 }), when(FieldKind::Str, Cond::OneOf { field: 0, a: 2, b: 2 })];
            assert(v@ =~= layout_spec(PacketName::CombatEvent_47));
            v
        },
        PacketName::Compress_47 => {
            let v: Vec<FieldSpec> = vec![always(FieldKind::VarInt)];
            assert(v@ =~= layout_spec(PacketName::Compress_47));
            v
        },
        PacketName::CraftProgressBar_5 => {
            let v: Vec<FieldSpec> = vec![always(FieldKind::U8), always(FieldKind::I16), always(FieldKind::I16)];
            assert(v@ =~= layout_spec(PacketName::CraftProgressBar_5));
            v
        },
        PacketName::CraftRecipeRequest_338 => {
            let v: Vec<FieldSpec> = vec![always(FieldKind::I8), always(FieldKind::VarInt), always(FieldKind::Bool)];
            assert(v@ =~= layout_spec(PacketName::CraftRecipeRequest_338));
            v
        },
        PacketName::CraftRecipeResponse_338 => {
            let v: Vec<FieldSpec> = vec![always(FieldKind::I8), always(FieldKind::VarInt)];
            assert(v@ =~= layout_spec(PacketName::CraftRecipeResponse_338));
            v
        },
        PacketName::CustomPayload_5 => {
            let v: Vec<FieldSpec> = vec![always(FieldKind::Str), always(FieldKind::Bytes(CountKind::I16))];
            assert(v@ =~= layout_spec(PacketName::CustomPayload_5));
            v
        },
        PacketName::CustomPayload_47 => {
            let v: Vec<FieldSpec> = vec![always(FieldKind::Str), always(FieldKind::Bytes(CountKind::Rest))];
            assert(v@ =~= layout_spec(PacketName::CustomPayload_47));
            v
        },
        PacketName::Difficulty_47 => {
            let v: Vec<FieldSpec> = vec![always(FieldKind::U8)];
            assert(v@ =~= layout_spec(PacketName::Difficulty_47));
            v
        },
        PacketName::Disconnect_5 => {
            let v: Vec<FieldSpec> = vec![always(FieldKind::Str)];
            assert(v@ =~= layout_spec(PacketName::Disconnect_5));
            v
        },
        PacketName::EnchantItem_5 => {
            let v: Vec<FieldSpec> = vec![always(FieldKind::I8), always(FieldKind::I8)];
            assert(v@ =~= layout_spec(PacketName::EnchantItem_5));
            v
        },
        PacketName::EncryptionBegin_5 => {
            let v: Vec<FieldSpec> = vec![always(FieldKind::Str), always(FieldKind::Bytes(CountKind::I16)), always(FieldKind::Bytes(CountKind::I16))];
            assert(v@ =~= layout_spec(PacketName::EncryptionBegin_5));
            v
        },
        PacketName::EncryptionBegin_47 => {
            let v: Vec<FieldSpec> = vec![always(FieldKind::Str), always(FieldKind::Bytes(CountKind::VarInt)), always(FieldKind::Bytes(CountKind::VarInt))];
            assert(v@ =~= layout_spec(PacketName::EncryptionBegin_47));
            v
        },
        PacketName::EncryptionBeginServerbound_5 => {
            let v: Vec<FieldSpec> = vec![always(FieldKind::Bytes(CountKind::I16)), always(FieldKind::Bytes(CountKind::I16))];
            assert(v@ =~= layout_spec(PacketName::EncryptionBeginServerbound_5));
            v
        },
        PacketName::EncryptionBeginServerbound_47 => {
            let v: Vec<FieldSpec> = vec![always(FieldKind::Bytes(CountKind::VarInt)), always(FieldKind::Bytes(CountKind::VarInt))];
            assert(v@ =~= layout_spec(PacketName::EncryptionBeginServerbound_47));
            v
        },
        PacketName::Entity_5 => {
            let v: Vec<FieldSpec> = vec![always(FieldKind::I32)];
            assert(v@ =~= layout_spec(PacketName::Entity_5));
            v
        },
        PacketName::Entity_47 => {
            let v: Vec<FieldSpec> = vec![always(FieldKind::VarInt)];
            assert(v@ =~= layout_spec(PacketName::Entity_47));
            v
        },
        PacketName::EntityAction_5 => {
            let v: Vec<FieldSpec> = vec![always(FieldKind::I32), always(FieldKind::I8), always(FieldKind::I32)];
            assert(v@ =~= layout_spec(PacketName::EntityAction_5));
            v
        },
        PacketName::EntityAction_47 => {
            let v: Vec<FieldSpec> = vec![always(FieldKind::VarInt), always(FieldKind::VarInt), always(FieldKind::VarInt)];
            assert(v@ =~= layout_spec(PacketName::EntityAction_47));
            v
        },
        PacketName::EntityDestroy_5 => {
            let v: Vec<FieldSpec> = vec![always(FieldKind::Array(CountKind::I8, RecordKind::I32))];
            assert(v@ =~= layout_spec(PacketName::EntityDestroy_5));
            v
        },
        PacketName::EntityDestroy_47 => {
            let v: Vec<FieldSpec> = vec![always(FieldKind::Array(CountKind::VarInt, RecordKind::VarInt))];
            assert(v@ =~= layout_spec(PacketName::EntityDestroy_47));
            v
        },
        PacketName::EntityEffect_5 => {
            let v: Vec<FieldSpec> = vec![always(FieldKind::I32), always(FieldKind::I8), always(FieldKind::I8), always(FieldKind::I16)];
            assert(v@ =~= layout_spec(PacketName::EntityEffect_5));
            v
        },
        PacketName::EntityEffect_47 => {
            let v: Vec<FieldSpec> = vec![always(FieldKind::VarInt), always(FieldKind::I8), always(FieldKind::I8), always(FieldKind::VarInt), always(FieldKind::Bool)];
            assert(v@ =~= layout_spec(PacketName::EntityEffect_47));
            v
        },
        PacketName::EntityEffect_107 => {
            let v: Vec<FieldSpec> = vec![always(FieldKind::VarInt), always(FieldKind::I8), always(FieldKind::I8), always(FieldKind::VarInt), always(FieldKind::I8)];
            assert(v@ =~= layout_spec(PacketName::EntityEffect_107));
            v
        },
        PacketName::EntityEquipment_5 => {
            let v: Vec<FieldSpec> = vec![always(FieldKind::I32), always(FieldKind::I16), always(FieldKind::Slot)];
            assert(v@ =~= layout_spec(PacketName::EntityEquipment_5));
            v
        },
        PacketName::EntityEquipment_47 => {
            let v: Vec<FieldSpec> = vec![always(FieldKind::VarInt), always(FieldKind::I16), always(FieldKind::Slot)];
            assert(v@ =~= layout_spec(PacketName::EntityEquipment_47));
            v
        },
        PacketName::EntityEquipment_107 => {
            let v: Vec<FieldSpec> = vec![always(FieldKind::VarInt), always(FieldKind::VarInt), always(FieldKind::Slot)];
            assert(v@ =~= layout_spec(PacketName::EntityEquipment_107));
            v
        },
        PacketName::EntityHeadRotation_5 => {
            let v: Vec<FieldSpec> = vec![always(FieldKind::I32), always(FieldKind::I8)];
            assert(v@ =~= layout_spec(PacketName::EntityHeadRotation_5));
            v
        },
        PacketName::EntityHeadRotation_47 => {
            let v: Vec<FieldSpec> = vec![always(FieldKind::VarInt), always(FieldKind::I8)];
            assert(v@ =~= layout_spec(PacketName::EntityHeadRotation_47));
            v
        },
        PacketName::EntityLook_5 => {
            let v: Vec<FieldSpec> = vec![always(FieldKind::I32), always(FieldKind::I8), always(FieldKind::I8)];
            assert(v@ =~= layout_spec(PacketName::EntityLook_5));
            v
        },
        PacketName::EntityLook_47 => {
            let v: Vec<FieldSpec> = vec![always(FieldKind::VarInt), always(FieldKind::I8), always(FieldKind::I8), always(FieldKind::Bool)];
            assert(v@ =~= layout_spec(PacketName::EntityLook_47));
            v
        },
        PacketName::EntityMetadata_5 => {
            let v: Vec<FieldSpec> = vec![always(FieldKind::I32), always(FieldKind::Meta)];
            assert(v@ =~= layout_spec(PacketName::EntityMetadata_5));
            v
        },
        PacketName::EntityMetadata_47 => {
            let v: Vec<FieldSpec> = vec![always(FieldKind::VarInt), always(FieldKind::Meta)];
            assert(v@ =~= layout_spec(PacketName::EntityMetadata_47));
            v
        },
        PacketName::EntityMoveLook_5 => {
            let v: Vec<FieldSpec> = vec![always(FieldKind::I32), always(FieldKind::I8), always(FieldKind::I8), always(FieldKind::I8), always(FieldKind::I8), always(FieldKind::I8)];
            assert(v@ =~= layout_spec(PacketName::EntityMoveLook_5));
            v
        },
        PacketName::EntityMoveLook_47 => {
            let v: Vec<FieldSpec> = vec![always(FieldKind::VarInt), always(FieldKind::I8), always(FieldKind::I8), always(FieldKind::I8), always(FieldKind::I8), always(FieldKind::I8), always(FieldKind::Bool)];
            assert(v@ =~= layout_spec(PacketName::EntityMoveLook_47));
            v
        },
        PacketName::EntityMoveLook_107 => {
            let v: Vec<FieldSpec> = vec![always(FieldKind::VarInt), always(FieldKind::I16), always(FieldKind::I16), always(FieldKind::I16), always(FieldKind::I8), always(FieldKind::I8), always(FieldKind::Bool)];
            assert(v@ =~= layout_spec(PacketName::EntityMoveLook_107));
            v
        },
        PacketName::EntityStatus_5 => {
            let v: Vec<FieldSpec> = vec![always(FieldKind::I32), always(FieldKind::I8)];
            assert(v@ =~= layout_spec(PacketName::EntityStatus_5));
            v
        },
        PacketName::EntityTeleport_5 => {
            let v: Vec<FieldSpec> = vec![always(FieldKind::I32), always(FieldKind::I32), always(FieldKind::I32), always(FieldKind::I32), always(FieldKind::I8), always(FieldKind::I8)];
            assert(v@ =~= layout_spec(PacketName::EntityTeleport_5));
            v
        },
        PacketName::EntityTeleport_47 => {
            let v: Vec<FieldSpec> = vec![always(FieldKind::VarInt), always(FieldKind::I32), always(FieldKind::I32), always(FieldKind::I32), always(FieldKind::I8), always(FieldKind::I8), always(FieldKind::Bool)];
            assert(v@ =~= layout_spec(PacketName::EntityTeleport_47));
            v
        },
        PacketName::EntityTeleport_107 => {
            let v: Vec<FieldSpec> = vec![always(FieldKind::VarInt), always(FieldKind::F64), always(FieldKind::F64), always(FieldKind::F64), always(FieldKind::I8), always(FieldKind::I8), always(FieldKind::Bool)];
            assert(v@ =~= layout_spec(PacketName::EntityTeleport_107));
            v
        },
        PacketName::EntityVelocity_5 => {
            let v: Vec<FieldSpec> = vec![always(FieldKind::I32), always(FieldKind::I16), always(FieldKind::I16), always(FieldKind::I16)];
            assert(v@ =~= layout_spec(PacketName::EntityVelocity_5));
            v
        },
        PacketName::EntityVelocity_47 => {
            let v: Vec<FieldSpec> = vec![always(FieldKind::VarInt), always(FieldKind::I16), always(FieldKind::I16), always(FieldKind::I16)];
            assert(v@ =~= layout_spec(PacketName::EntityVelocity_47));
            v
        },
        PacketName::Experience_5 => {
            let v: Vec<FieldSpec> = vec![always(FieldKind::F32), always(FieldKind::I16), always(FieldKind::I16)];
            assert(v@ =~= layout_spec(PacketName::Experience_5));
            v
        },
        PacketName::Experience_47 => {
            let v: Vec<FieldSpec> = vec![always(FieldKind::F32), always(FieldKind::VarInt), always(FieldKind::VarInt)];
            assert(v@ =~= layout_spec(PacketName::Experience_47));
            v
        },
        PacketName::Explosion_5 => {
            let v: Vec<FieldSpec> = vec![always(FieldKind::F32), always(FieldKind::F32), always(FieldKind::F32), always(FieldKind::F32), always(FieldKind::Array(CountKind::I32, RecordKind::Explosion)), always(FieldKind::F32), always(FieldKind::F32), always(FieldKind::F32)];
            assert(v@ =~= layout_spec(PacketName::Explosion_5));
            v
        },
        PacketName::Flying_5 => {
            let v: Vec<FieldSpec> = vec![always(FieldKind::Bool)];
            assert(v@ =~= layout_spec(PacketName::Flying_5));
            v
        },
        PacketName::GameStateChange_5 => {
            let v: Vec<FieldSpec> = vec![always(FieldKind::U8), always(FieldKind::F32)];
            assert(v@ =~= layout_spec(PacketName::GameStateChange_5));
            v
        },
        PacketName::HeldItemSlot_5 => {
            let v: Vec<FieldSpec> = vec![always(FieldKind::I8)];
            assert(v@ =~= layout_spec(PacketName::HeldItemSlot_5));
            v
        },
        PacketName::KeepAlive_5 => {
            let v: Vec<FieldSpec> = vec![always(FieldKind::I32)];
            assert(v@ =~= layout_spec(PacketName::KeepAlive_5));
            v
        },
        PacketName::KeepAlive_47 => {
            let v: Vec<FieldSpec> = vec![always(FieldKind::VarInt)];
            assert(v@ =~= layout_spec(PacketName::KeepAlive_47));
            v
        },
        PacketName::KeepAlive_340 => {
            let v: Vec<FieldSpec> = vec![always(FieldKind::I64)];
            assert(v@ =~= layout_spec(PacketName::KeepAlive_340));
            v
        },
        PacketName::KickDisconnect_5 => {
            let v: Vec<FieldSpec> = vec![always(FieldKind::Str)];
            assert(v@ =~= layout_spec(PacketName::KickDisconnect_5));
            v
        },
        PacketName::LegacyServerListPing_5 => {
            let v: Vec<FieldSpec> = vec![always(FieldKind::U8)];
            assert(v@ =~= layout_spec(PacketName::LegacyServerListPing_5));
            v
        },
        PacketName::Login_5 => {
            let v: Vec<FieldSpec> = vec![always(FieldKind::I32), always(FieldKind::U8), always(FieldKind::I8), always(FieldKind::U8), always(FieldKind::U8), always(FieldKind::Str)];
            assert(v@ =~= layout_spec(PacketName::Login_5));
            v
        },
        PacketName::Login_47 => {
            let v: Vec<FieldSpec> = vec![always(FieldKind::I32), always(FieldKind::U8), always(FieldKind::I8), always(FieldKind::U8), always(FieldKind::U8), always(FieldKind::Str), always(FieldKind::Bool)];
            assert(v@ =~= layout_spec(PacketName::Login_47));
            v
        },
        PacketName::Login_109 => {
            let v: Vec<FieldSpec> = vec![always(FieldKind::I32), always(FieldKind::U8), always(FieldKind::I32), always(FieldKind::U8), always(FieldKind::U8), always(FieldKind::Str), always(FieldKind::Bool)];
            assert(v@ =~= layout_spec(PacketName::Login_109));
            v
        },
        PacketName::LoginStart_5 => {
            let v: Vec<FieldSpec> = vec![always(FieldKind::Str)];
            assert(v@ =~= layout_spec(PacketName::LoginStart_5));
            v
        },
        PacketName::Look_5 => {
            let v: Vec<FieldSpec> = vec![always(FieldKind::F32), always(FieldKind::F32), always(FieldKind::Bool)];
            assert(v@ =~= layout_spec(PacketName::Look_5));
            v
        },
        PacketName::Map_5 => {
            let v: Vec<FieldSpec> = vec![always(FieldKind::VarInt), always(FieldKind::Bytes(CountKind::I16))];
            assert(v@ =~= layout_spec(PacketName::Map_5));
            v
        },
        PacketName::MapChunk_5 => {
            let v: Vec<FieldSpec> = vec![always(FieldKind::I32), always(FieldKind::I32), always(FieldKind::Bool), always(FieldKind::U16), always(FieldKind::U16), always(FieldKind::Bytes(CountKind::I32))];
            assert(v@ =~= layout_spec(PacketName::MapChunk_5));
            v
        },
        PacketName::MapChunk_47 => {
            let v: Vec<FieldSpec> = vec![always(FieldKind::I32), always(FieldKind::I32), always(FieldKind::Bool), always(FieldKind::U16), always(FieldKind::Bytes(CountKind::VarInt))];
            assert(v@ =~= layout_spec(PacketName::MapChunk_47));
            v
        },
        PacketName::MapChunk_107 => {
            let v: Vec<FieldSpec> = vec![always(FieldKind::I32), always(FieldKind::I32), always(FieldKind::Bool), always(FieldKind::VarInt), always(FieldKind::Bytes(CountKind::VarInt))];
            assert(v@ =~= layout_spec(PacketName::MapChunk_107));
            v
        },
        PacketName::MapChunk_110 => {
            let v: Vec<FieldSpec> = vec![always(FieldKind::I32), always(FieldKind::I32), always(FieldKind::Bool), always(FieldKind::VarInt), always(FieldKind::Bytes(CountKind::VarInt)), always(FieldKind::Bytes(CountKind::Rest))];
            assert(v@ =~= layout_spec(PacketName::MapChunk_110));
            v
        },
        PacketName::MapChunkBulk_5 => {
            let v: Vec<FieldSpec> = vec![count_for(FieldKind::I16, 4), count_for(FieldKind::I32, 3), always(FieldKind::Bool), always(FieldKind::Bytes(CountKind::Field(1))), always(FieldKind::Array(CountKind::Field(0), RecordKind::ChunkMeta))];
            assert(v@ =~= layout_spec(PacketName::MapChunkBulk_5));
            v
        },
        PacketName::MapChunkBulk_47 => {
            let v: Vec<FieldSpec> = vec![always(FieldKind::Bool), always(FieldKind::Array(CountKind::VarInt, RecordKind::ChunkMeta47)), always(FieldKind::Bytes(CountKind::Rest))];
            assert(v@ =~= layout_spec(PacketName::MapChunkBulk_47));
            v
        },
        PacketName::MultiBlockChange_5 => {
            let v: Vec<FieldSpec> = vec![always(FieldKind::I32), always(FieldKind::I32), count_for(FieldKind::I16, 4), always(FieldKind::I32), always(FieldKind::Array(CountKind::Field(2), RecordKind::BlockChange5))];
            assert(v@ =~= layout_spec(PacketName::MultiBlockChange_5));
            v
        },
        PacketName::MultiBlockChange_47 => {
            let v: Vec<FieldSpec> = vec![always(FieldKind::I32), always(FieldKind::I32), always(FieldKind::Array(CountKind::VarInt, RecordKind::BlockChange47))];
            assert(v@ =~= layout_spec(PacketName::MultiBlockChange_47));
            v
        },
        PacketName::NamedEntitySpawn_47 => {
            let v: Vec<FieldSpec> = vec![always(FieldKind::VarInt), always(FieldKind::U128), always(FieldKind::I32), always(FieldKind::I32), always(FieldKind::I32), always(FieldKind::I8), always(FieldKind::I8), always(FieldKind::I16), always(FieldKind::Meta)];
            assert(v@ =~= layout_spec(PacketName::NamedEntitySpawn_47));
            v
        },
        PacketName::NamedEntitySpawn_107 => {
            let v: Vec<FieldSpec> = vec![always(FieldKind::VarInt), always(FieldKind::U128), always(FieldKind::F64), always(FieldKind::F64), always(FieldKind::F64), always(FieldKind::I8), always(FieldKind::I8), always(FieldKind::Meta)];
            assert(v@ =~= layout_spec(PacketName::NamedEntitySpawn_107));
            v
        },
        PacketName::NamedSoundEffect_5 => {
            let v: Vec<FieldSpec> = vec![always(FieldKind::Str), always(FieldKind::I32), always(FieldKind::I32), always(FieldKind::I32), always(FieldKind::F32), always(FieldKind::U8)];
            assert(v@ =~= layout_spec(PacketName::NamedSoundEffect_5));
            v
        },
        PacketName::NamedSoundEffect_107 => {
            let v: Vec<FieldSpec> = vec![always(FieldKind::Str), always(FieldKind::VarInt), always(FieldKind::I32), always(FieldKind::I32), always(FieldKind::I32), always(FieldKind::F32), always(FieldKind::U8)];
            assert(v@ =~= layout_spec(PacketName::NamedSoundEffect_107));
            v
        },
        PacketName::NamedSoundEffect_210 => {
            let v: Vec<FieldSpec> = vec![always(FieldKind::Str), always(FieldKind::VarInt), always(FieldKind::I32), always(FieldKind::I32), always(FieldKind::I32), always(FieldKind::F32), always(FieldKind::F32)];
            assert(v@ =~= layout_spec(PacketName::NamedSoundEffect_210));
            v
        },
        PacketName::OpenSignEntity_5 => {
            let v: Vec<FieldSpec> = vec![always(FieldKind::PositionIII)];
            assert(v@ =~= layout_spec(PacketName::OpenSignEntity_5));
            v
        },
        PacketName::OpenSignEntity_47 => {
            let v: Vec<FieldSpec> = vec![always(FieldKind::Position)];
            assert(v@ =~= layout_spec(PacketName::OpenSignEntity_47));
            v
        },
        PacketName::OpenWindow_5 => {
            let v: Vec<FieldSpec> = vec![always(FieldKind::U8), always(FieldKind::U8), always(FieldKind::Str), always(FieldKind::U8), always(FieldKind::Bool), when(FieldKind::I32, Cond::OneOf { field: 1, a: 11, b: 11 })];
            assert(v@ =~= layout_spec(PacketName::OpenWindow_5));
            v
        },
        PacketName::Ping_5 => {
            let v: Vec<FieldSpec> = vec![always(FieldKind::I64)];
            assert(v@ =~= layout_spec(PacketName::Ping_5));
            v
        },
        PacketName::PingStart_5 => {
            let v: Vec<FieldSpec> = Vec::new();
            assert(v@ =~= layout_spec(PacketName::PingStart_5));
            v
        },
        PacketName::PlayerInfo_5 => {
            let v: Vec<FieldSpec> = vec![always(FieldKind::Str), always(FieldKind::Bool), always(FieldKind::I16)];
            assert(v@ =~= layout_spec(PacketName::PlayerInfo_5));
            v
        },
        PacketName::PlayerlistHeader_47 => {
            let v: Vec<FieldSpec> = vec![always(FieldKind::Str), always(FieldKind::Str)];
            assert(v@ =~= layout_spec(PacketName::PlayerlistHeader_47));
            v
        },
        PacketName::Position_5 => {
            let v: Vec<FieldSpec> = vec![always(FieldKind::F64), always(FieldKind::F64), always(FieldKind::F64), always(FieldKind::F32), always(FieldKind::F32), always(FieldKind::Bool)];
            assert(v@ =~= layout_spec(PacketName::Position_5));
            v
        },
        PacketName::Position_47 => {
            let v: Vec<FieldSpec> = vec![always(FieldKind::F64), always(FieldKind::F64), always(FieldKind::F64), always(FieldKind::F32), always(FieldKind::F32), always(FieldKind::I8)];
            assert(v@ =~= layout_spec(PacketName::Position_47));
            v
        },
        PacketName::Position_107 => {
            let v: Vec<FieldSpec> = vec![always(FieldKind::F64), always(FieldKind::F64), always(FieldKind::F64), always(FieldKind::F32), always(FieldKind::F32), always(FieldKind::I8), always(FieldKind::VarInt)];
            assert(v@ =~= layout_spec(PacketName::Position_107));
            v
        },
        PacketName::PositionLook_5 => {
            let v: Vec<FieldSpec> = vec![always(FieldKind::F64), always(FieldKind::F64), always(FieldKind::F64), always(FieldKind::F64), always(FieldKind::F32), always(FieldKind::F32), always(FieldKind::Bool)];
            assert(v@ =~= layout_spec(PacketName::PositionLook_5));
            v
        },
        PacketName::PositionLook_47 => {
            let v: Vec<FieldSpec> = vec![always(FieldKind::F64), always(FieldKind::F64), always(FieldKind::F64), always(FieldKind::F32), always(FieldKind::F32), always(FieldKind::Bool)];
            assert(v@ =~= layout_spec(PacketName::PositionLook_47));
            v
        },
        PacketName::RelEntityMove_5 => {
            let v: Vec<FieldSpec> = vec![always(FieldKind::I32), always(FieldKind::I8), always(FieldKind::I8), always(FieldKind::I8)];
            assert(v@ =~= layout_spec(PacketName::RelEntityMove_5));
            v
        },
        PacketName::RelEntityMove_47 => {
            let v: Vec<FieldSpec> = vec![always(FieldKind::VarInt), always(FieldKind::I8), always(FieldKind::I8), always(FieldKind::I8), always(FieldKind::Bool)];
            assert(v@ =~= layout_spec(PacketName::RelEntityMove_47));
            v
        },
        PacketName::RelEntityMove_107 => {
            let v: Vec<FieldSpec> = vec![always(FieldKind::VarInt), always(FieldKind::I16), always(FieldKind::I16), always(FieldKind::I16), always(FieldKind::Bool)];
            assert(v@ =~= layout_spec(PacketName::RelEntityMove_107));
            v
        },
        PacketName::RemoveEntityEffect_5 => {
            let v: Vec<FieldSpec> = vec![always(FieldKind::I32), always(FieldKind::I8)];
            assert(v@ =~= layout_spec(PacketName::RemoveEntityEffect_5));
            v
        },
        PacketName::RemoveEntityEffect_47 => {
            let v: Vec<FieldSpec> = vec![always(FieldKind::VarInt), always(FieldKind::I8)];
            assert(v@ =~= layout_spec(PacketName::RemoveEntityEffect_47));
            v
        },
        PacketName::ResourcePackReceive_47 => {
            let v: Vec<FieldSpec> = vec![always(FieldKind::Str), always(FieldKind::VarInt)];
            assert(v@ =~= layout_spec(PacketName::ResourcePackReceive_47));
            v
        },
        PacketName::ResourcePackReceive_210 => {
            let v: Vec<FieldSpec> = vec![always(FieldKind::VarInt)];
            assert(v@ =~= layout_spec(PacketName::ResourcePackReceive_210));
            v
        },
        PacketName::ResourcePackSend_47 => {
            let v: Vec<FieldSpec> = vec![always(FieldKind::Str), always(FieldKind::Str)];
            assert(v@ =~= layout_spec(PacketName::ResourcePackSend_47));
            v
        },
        PacketName::Respawn_5 => {
            let v: Vec<FieldSpec> = vec![always(FieldKind::I32), always(FieldKind::U8), always(FieldKind::U8), always(FieldKind::Str)];
            assert(v@ =~= layout_spec(PacketName::Respawn_5));
            v
        },
        PacketName::ScoreboardDisplayObjective_5 => {
            let v: Vec<FieldSpec> = vec![always(FieldKind::I8), always(FieldKind::Str)];
            assert(v@ =~= layout_spec(PacketName::ScoreboardDisplayObjective_5));
            v
        },
        PacketName::ScoreboardObjective_5 => {
            let v: Vec<FieldSpec> = vec![always(FieldKind::Str), always(FieldKind::Str), always(FieldKind::I8)];
            assert(v@ =~= layout_spec(PacketName::ScoreboardObjective_5));
            v
        },
        PacketName::ScoreboardObjective_47 => {
            let v: Vec<FieldSpec> = vec![always(FieldKind::Str), always(FieldKind::I8), when(FieldKind::Str, Cond::OneOf { field: 1, a: 0, b: 2 }), when(FieldKind::Str, Cond::OneOf { field: 1, a: 0, b: 2 })];
            assert(v@ =~= layout_spec(PacketName::ScoreboardObjective_47));
            v
        },
        PacketName::ScoreboardScore_5 => {
            let v: Vec<FieldSpec> = vec![always(FieldKind::Str), always(FieldKind::I8), when(FieldKind::Str, Cond::NotEq { field: 1, a: 1 }), when(FieldKind::I32, Cond::NotEq { field: 1, a: 1 })];
            assert(v@ =~= layout_spec(PacketName::ScoreboardScore_5));
            v
        },
        PacketName::ScoreboardScore_47 => {
            let v: Vec<FieldSpec> = vec![always(FieldKind::Str), always(FieldKind::VarInt), always(FieldKind::Str), when(FieldKind::VarInt, Cond::NotEq { field: 1, a: 1 })];
            assert(v@ =~= layout_spec(PacketName::ScoreboardScore_47));
            v
        },
        PacketName::ServerInfo_5 => {
            let v: Vec<FieldSpec> = vec![always(FieldKind::Str)];
            assert(v@ =~= layout_spec(PacketName::ServerInfo_5));
            v
        },
        PacketName::SetCompression_47 => {
            let v: Vec<FieldSpec> = vec![always(FieldKind::VarInt)];
            assert(v@ =~= layout_spec(PacketName::SetCompression_47));
            v
        },
        PacketName::SetCooldown_107 => {
            let v: Vec<FieldSpec> = vec![always(FieldKind::VarInt), always(FieldKind::VarInt)];
            assert(v@ =~= layout_spec(PacketName::SetCooldown_107));
            v
        },
        PacketName::SetCreativeSlot_5 => {
            let v: Vec<FieldSpec> = vec![always(FieldKind::I16), always(FieldKind::Slot)];
            assert(v@ =~= layout_spec(PacketName::SetCreativeSlot_5));
            v
        },
        PacketName::SetPassengers_107 => {
            let v: Vec<FieldSpec> = vec![always(FieldKind::VarInt), always(FieldKind::Array(CountKind::VarInt, RecordKind::VarInt))];
            assert(v@ =~= layout_spec(PacketName::SetPassengers_107));
            v
        },
        PacketName::SetProtocol_5 => {
            let v: Vec<FieldSpec> = vec![always(FieldKind::VarInt), always(FieldKind::Str), always(FieldKind::U16), always(FieldKind::VarInt)];
            assert(v@ =~= layout_spec(PacketName::SetProtocol_5));
            v
        },
        PacketName::SetSlot_5 => {
            let v: Vec<FieldSpec> = vec![always(FieldKind::I8), always(FieldKind::I16), always(FieldKind::Slot)];
            assert(v@ =~= layout_spec(PacketName::SetSlot_5));
            v
        },
        PacketName::Settings_5 => {
            let v: Vec<FieldSpec> = vec![always(FieldKind::Str), always(FieldKind::I8), always(FieldKind::I8), always(FieldKind::Bool), always(FieldKind::U8), always(FieldKind::Bool)];
            assert(v@ =~= layout_spec(PacketName::Settings_5));
            v
        },
        PacketName::Settings_47 => {
            let v: Vec<FieldSpec> = vec![always(FieldKind::Str), always(FieldKind::I8), always(FieldKind::I8), always(FieldKind::Bool), always(FieldKind::U8)];
            assert(v@ =~= layout_spec(PacketName::Settings_47));
            v
        },
        PacketName::Settings_107 => {
            let v: Vec<FieldSpec> = vec![always(FieldKind::Str), always(FieldKind::I8), always(FieldKind::VarInt), always(FieldKind::Bool), always(FieldKind::U8), always(FieldKind::VarInt)];
            assert(v@ =~= layout_spec(PacketName::Settings_107));
            v
        },
        PacketName::SoundEffect_107 => {
            let v: Vec<FieldSpec> = vec![always(FieldKind::VarInt), always(FieldKind::VarInt), always(FieldKind::I32), always(FieldKind::I32), always(FieldKind::I32), always(FieldKind::F32), always(FieldKind::U8)];
            assert(v@ =~= layout_spec(PacketName::SoundEffect_107));
            v
        },
        PacketName::SoundEffect_210 => {
            let v: Vec<FieldSpec> = vec![always(FieldKind::VarInt), always(FieldKind::VarInt), always(FieldKind::I32), always(FieldKind::I32), always(FieldKind::I32), always(FieldKind::F32), always(FieldKind::F32)];
            assert(v@ =~= layout_spec(PacketName::SoundEffect_210));
            v
        },
        PacketName::SpawnEntity_107 => {
            let v: Vec<FieldSpec> = vec![always(FieldKind::VarInt), always(FieldKind::U128), always(FieldKind::I8), always(FieldKind::F64), always(FieldKind::F64), always(FieldKind::F64), always(FieldKind::I8), always(FieldKind::I8), always(FieldKind::I32), always(FieldKind::I16), always(FieldKind::I16), always(FieldKind::I16)];
            assert(v@ =~= layout_spec(PacketName::SpawnEntity_107));
            v
        },
        PacketName::SpawnEntityExperienceOrb_5 => {
            let v: Vec<FieldSpec> = vec![always(FieldKind::VarInt), always(FieldKind::I32), always(FieldKind::I32), always(FieldKind::I32), always(FieldKind::I16)];
            assert(v@ =~= layout_spec(PacketName::SpawnEntityExperienceOrb_5));
            v
        },
        PacketName::SpawnEntityExperienceOrb_107 => {
            let v: Vec<FieldSpec> = vec![always(FieldKind::VarInt), always(FieldKind::F64), always(FieldKind::F64), always(FieldKind::F64), always(FieldKind::I16)];
            assert(v@ =~= layout_spec(PacketName::SpawnEntityExperienceOrb_107));
            v
        },
        PacketName::SpawnEntityLiving_5 => {
            let v: Vec<FieldSpec> = vec![always(FieldKind::VarInt), always(FieldKind::U8), always(FieldKind::I32), always(FieldKind::I32), always(FieldKind::I32), always(FieldKind::I8), always(FieldKind::I8), always(FieldKind::I8), always(FieldKind::I16), always(FieldKind::I16), always(FieldKind::I16), always(FieldKind::Meta)];
            assert(v@ =~= layout_spec(PacketName::SpawnEntityLiving_5));
            v
        },
        PacketName::SpawnEntityLiving_107 => {
            let v: Vec<FieldSpec> = vec![always(FieldKind::VarInt), always(FieldKind::U128), always(FieldKind::U8), always(FieldKind::F64), always(FieldKind::F64), always(FieldKind::F64), always(FieldKind::I8), always(FieldKind::I8), always(FieldKind::I8), always(FieldKind::I16), always(FieldKind::I16), always(FieldKind::I16), always(FieldKind::Meta)];
            assert(v@ =~= layout_spec(PacketName::SpawnEntityLiving_107));
            v
        },
        PacketName::SpawnEntityLiving_315 => {
            let v: Vec<FieldSpec> = vec![always(FieldKind::VarInt), always(FieldKind::U128), always(FieldKind::VarInt), always(FieldKind::F64), always(FieldKind::F64), always(FieldKind::F64), always(FieldKind::I8), always(FieldKind::I8), always(FieldKind::I8), always(FieldKind::I16), always(FieldKind::I16), always(FieldKind::I16), always(FieldKind::Meta)];
            assert(v@ =~= layout_spec(PacketName::SpawnEntityLiving_315));
            v
        },
        PacketName::SpawnEntityPainting_5 => {
            let v: Vec<FieldSpec> = vec![always(FieldKind::VarInt), always(FieldKind::Str), always(FieldKind::PositionIII), always(FieldKind::I32)];
            assert(v@ =~= layout_spec(PacketName::SpawnEntityPainting_5));
            v
        },
        PacketName::SpawnEntityPainting_47 => {
            let v: Vec<FieldSpec> = vec![always(FieldKind::VarInt), always(FieldKind::Str), always(FieldKind::Position), always(FieldKind::U8)];
            assert(v@ =~= layout_spec(PacketName::SpawnEntityPainting_47));
            v
        },
        PacketName::SpawnEntityPainting_107 => {
            let v: Vec<FieldSpec> = vec![always(FieldKind::VarInt), always(FieldKind::U128), always(FieldKind::Str), always(FieldKind::Position), always(FieldKind::U8)];
            assert(v@ =~= layout_spec(PacketName::SpawnEntityPainting_107));
            v
        },
        PacketName::SpawnEntityWeather_5 => {
            let v: Vec<FieldSpec> = vec![always(FieldKind::VarInt), always(FieldKind::I8), always(FieldKind::I32), always(FieldKind::I32), always(FieldKind::I32)];
            assert(v@ =~= layout_spec(PacketName::SpawnEntityWeather_5));
            v
        },
        PacketName::SpawnEntityWeather_107 => {
            let v: Vec<FieldSpec> = vec![always(FieldKind::VarInt), always(FieldKind::I8), always(FieldKind::F64), always(FieldKind::F64), always(FieldKind::F64)];
            assert(v@ =~= layout_spec(PacketName::SpawnEntityWeather_107));
            v
        },
        PacketName::SpawnPosition_5 => {
            let v: Vec<FieldSpec> = vec![always(FieldKind::PositionIII)];
            assert(v@ =~= layout_spec(PacketName::SpawnPosition_5));
            v
        },
        PacketName::SpawnPosition_47 => {
            let v: Vec<FieldSpec> = vec![always(FieldKind::Position)];
            assert(v@ =~= layout_spec(PacketName::SpawnPosition_47));
            v
        },
        PacketName::Spectate_47 => {
            let v: Vec<FieldSpec> = vec![always(FieldKind::U128)];
            assert(v@ =~= layout_spec(PacketName::Spectate_47));
            v
        },
        PacketName::SteerBoat_107 => {
            let v: Vec<FieldSpec> = vec![always(FieldKind::Bool), always(FieldKind::Bool)];
            assert(v@ =~= layout_spec(PacketName::SteerBoat_107));
            v
        },
        PacketName::SteerVehicle_5 => {
            let v: Vec<FieldSpec> = vec![always(FieldKind::F32), always(FieldKind::F32), always(FieldKind::Bool), always(FieldKind::Bool)];
            assert(v@ =~= layout_spec(PacketName::SteerVehicle_5));
            v
        },
        PacketName::SteerVehicle_47 => {
            let v: Vec<FieldSpec> = vec![always(FieldKind::F32), always(FieldKind::F32), always(FieldKind::U8)];
            assert(v@ =~= layout_spec(PacketName::SteerVehicle_47));
            v
        },
        PacketName::Success_5 => {
            let v: Vec<FieldSpec> = vec![always(FieldKind::Str), always(FieldKind::Str)];
            assert(v@ =~= layout_spec(PacketName::Success_5));
            v
        },
        PacketName::TeleportConfirm_107 => {
            let v: Vec<FieldSpec> = vec![always(FieldKind::VarInt)];
            assert(v@ =~= layout_spec(PacketName::TeleportConfirm_107));
            v
        },
        PacketName::Title_47 => {
            let v: Vec<FieldSpec> = vec![always(FieldKind::VarInt), when(FieldKind::Str, Cond::OneOf { field: 0, a: 0, b: 1 }), when(FieldKind::I32, Cond::OneOf { field: 0, a: 2, b: 2 }), when(FieldKind::I32, Cond::OneOf { field: 0, a: 2, b: 2 }), when(FieldKind::I32, Cond::OneOf { field: 0, a: 2, b: 2 })];
            assert(v@ =~= layout_spec(PacketName::Title_47));
            v
        },
        PacketName::Transaction_5 => {
            let v: Vec<FieldSpec> = vec![always(FieldKind::U8), always(FieldKind::I16), always(FieldKind::Bool)];
            assert(v@ =~= layout_spec(PacketName::Transaction_5));
            v
        },
        PacketName::Transaction_47 => {
            let v: Vec<FieldSpec> = vec![always(FieldKind::I8), always(FieldKind::I16), always(FieldKind::Bool)];
            assert(v@ =~= layout_spec(PacketName::Transaction_47));
            v
        },
        PacketName::UnloadChunk_107 => {
            let v: Vec<FieldSpec> = vec![always(FieldKind::I32), always(FieldKind::I32)];
            assert(v@ =~= layout_spec(PacketName::UnloadChunk_107));
            v
        },
        PacketName::UpdateHealth_5 => {
            let v: Vec<FieldSpec> = vec![always(FieldKind::F32), always(FieldKind::I16), always(FieldKind::F32)];
            assert(v@ =~= layout_spec(PacketName::UpdateHealth_5));
            v
        },
        PacketName::UpdateHealth_47 => {
            let v: Vec<FieldSpec> = vec![always(FieldKind::F32), always(FieldKind::VarInt), always(FieldKind::F32)];
            assert(v@ =~= layout_spec(PacketName::UpdateHealth_47));
            v
        },
        PacketName::UpdateSign_5 => {
            let v: Vec<FieldSpec> = vec![always(FieldKind::PositionISI), always(FieldKind::Str), always(FieldKind::Str), always(FieldKind::Str), always(FieldKind::Str)];
            assert(v@ =~= layout_spec(PacketName::UpdateSign_5));
            v
        },
        PacketName::UpdateSign_47 => {
            let v: Vec<FieldSpec> = vec![always(FieldKind::Position), always(FieldKind::Str), always(FieldKind::Str), always(FieldKind::Str), always(FieldKind::Str)];
            assert(v@ =~= layout_spec(PacketName::UpdateSign_47));
            v
        },
        PacketName::UpdateTime_5 => {
            let v: Vec<FieldSpec> = vec![always(FieldKind::I64), always(FieldKind::I64)];
            assert(v@ =~= layout_spec(PacketName::UpdateTime_5));
            v
        },
        PacketName::UseEntity_5 => {
            let v: Vec<FieldSpec> = vec![always(FieldKind::I32), always(FieldKind::I8), when(FieldKind::F32, Cond::OneOf { field: 1, a: 2, b: 2 }), when(FieldKind::F32, Cond::OneOf { field: 1, a: 2, b: 2 }), when(FieldKind::F32, Cond::OneOf { field: 1, a: 2, b: 2 })];
            assert(v@ =~= layout_spec(PacketName::UseEntity_5));
            v
        },
        PacketName::UseEntity_47 => {
            let v: Vec<FieldSpec> = vec![always(FieldKind::VarInt), always(FieldKind::VarInt), when(FieldKind::F32, Cond::OneOf { field: 1, a: 2, b: 2 }), when(FieldKind::F32, Cond::OneOf { field: 1, a: 2, b: 2 }), when(FieldKind::F32, Cond::OneOf { field: 1, a: 2, b: 2 })];
            assert(v@ =~= layout_spec(PacketName::UseEntity_47));
            v
        },
        PacketName::UseEntity_107 => {
            let v: Vec<FieldSpec> = vec![always(FieldKind::VarInt), always(FieldKind::VarInt), when(FieldKind::F32, Cond::OneOf { field: 1, a: 2, b: 2 }), when(FieldKind::F32, Cond::OneOf { field: 1, a: 2, b: 2 }), when(FieldKind::F32, Cond::OneOf { field: 1, a: 2, b: 2 }), when(FieldKind::VarInt, Cond::OneOf { field: 1, a: 0, b: 2 })];
            assert(v@ =~= layout_spec(PacketName::UseEntity_107));
            v
        },
        PacketName::UseItem_107 => {
            let v: Vec<FieldSpec> = vec![always(FieldKind::VarInt)];
            assert(v@ =~= layout_spec(PacketName::UseItem_107));
            v
        },
        PacketName::VehicleMove_107 => {
            let v: Vec<FieldSpec> = vec![always(FieldKind::F64), always(FieldKind::F64), always(FieldKind::F64), always(FieldKind::F32), always(FieldKind::F32)];
            assert(v@ =~= layout_spec(PacketName::VehicleMove_107));
            v
        },
        PacketName::WindowClick_5 => {
            let v: Vec<FieldSpec> = vec![always(FieldKind::I8), always(FieldKind::I16), always(FieldKind::I8), always(FieldKind::I16), always(FieldKind::I8), always(FieldKind::Slot)];
            assert(v@ =~= layout_spec(PacketName::WindowClick_5));
            v
        },
        PacketName::WindowClick_47 => {
            let v: Vec<FieldSpec> = vec![always(FieldKind::U8), always(FieldKind::I16), always(FieldKind::I8), always(FieldKind::I16), always(FieldKind::I8), always(FieldKind::Slot)];
            assert(v@ =~= layout_spec(PacketName::WindowClick_47));
            v
        },
        PacketName::WorldBorder_47 => {
            let v: Vec<FieldSpec> = vec![always(FieldKind::VarInt), when(FieldKind::F64, Cond::OneOf { field: 0, a: 0, b: 0 }), when(FieldKind::F64, Cond::OneOf { field: 0, a: 2, b: 3 }), when(FieldKind::F64, Cond::OneOf { field: 0, a: 2, b: 3 }), when(FieldKind::F64, Cond::OneOf { field: 0, a: 1, b: 3 }), when(FieldKind::F64, Cond::OneOf { field: 0, a: 1, b: 3 }), when(FieldKind::VarLong, Cond::OneOf { field: 0, a: 1, b: 3 }), when(FieldKind::VarInt, Cond::OneOf { field: 0, a: 3, b: 3 }), when(FieldKind::VarInt, Cond::OneOf { field: 0, a: 3, b: 4 }), when(FieldKind::VarInt, Cond::OneOf { field: 0, a: 3, b: 5 })];
            assert(v@ =~= layout_spec(PacketName::WorldBorder_47));
            v
        },
        PacketName::WorldEvent_5 => {
            let v: Vec<FieldSpec> = vec![always(FieldKind::I32), always(FieldKind::PositionIBI), always(FieldKind::I32), always(FieldKind::Bool)];
            assert(v@ =~= layout_spec(PacketName::WorldEvent_5));
            v
        },
        PacketName::WorldEvent_47 => {
            let v: Vec<FieldSpec> = vec![always(FieldKind::I32), always(FieldKind::Position), always(FieldKind::I32), always(FieldKind::Bool)];
            assert(v@ =~= layout_spec(PacketName::WorldEvent_47));
            v
        },
        PacketName::WorldParticles_5 => {
            let v: Vec<FieldSpec> = vec![always(FieldKind::Str), always(FieldKind::F32), always(FieldKind::F32), always(FieldKind::F32), always(FieldKind::F32), always(FieldKind::F32), always(FieldKind::F32), always(FieldKind::F32), always(FieldKind::I32)];
            assert(v@ =~= layout_spec(PacketName::WorldParticles_5));
            v
        },
    }
}

/// One row of a version's table: the packet with this layout name has this
/// id in this state and direction.
#[derive(Debug, Clone, Copy, PartialEq, Eq, Structural)]
pub struct TableRow {
    pub state: ConnectionState,
    pub direction: PacketDirection,
    pub id: i32,
    pub name: PacketName,
}

/// The packets of 1.7.6 (protocol 5): state, direction, id and layout of each packet.
pub open spec fn rows_1_7_6() -> Seq<TableRow> {
    seq![
        TableRow { state: ConnectionState::Handshaking, direction: PacketDirection::Server, id: 0x00, name: PacketName::SetProtocol_5 },
        TableRow { state: ConnectionState::Handshaking, direction: PacketDirection::Server, id: 0xfe, name: PacketName::LegacyServerListPing_5 },
        TableRow { state: ConnectionState::Status, direction: PacketDirection::Client, id: 0x00, name: PacketName::ServerInfo_5 },
        TableRow { state: ConnectionState::Status, direction: PacketDirection::Client, id: 0x01, name: PacketName::Ping_5 },
        TableRow { state: ConnectionState::Status, direction: PacketDirection::Server, id: 0x00, name: PacketName::PingStart_5 },
        TableRow { state: ConnectionState::Status, direction: PacketDirection::Server, id: 0x01, name: PacketName::Ping_5 },
        TableRow { state: ConnectionState::Login, direction: PacketDirection::Client, id: 0x00, name: PacketName::Disconnect_5 },
        TableRow { state: ConnectionState::Login, direction: PacketDirection::Client, id: 0x01, name: PacketName::EncryptionBegin_5 },
        TableRow { state: ConnectionState::Login, direction: PacketDirection::Client, id: 0x02, name: PacketName::Success_5 },
        TableRow { state: ConnectionState::Login, direction: PacketDirection::Server, id: 0x00, name: PacketName::LoginStart_5 },
        TableRow { state: ConnectionState::Login, direction: PacketDirection::Server, id: 0x01, name: PacketName::EncryptionBeginServerbound_5 },
        TableRow { state: ConnectionState::Play, direction: PacketDirection::Client, id: 0x00, name: PacketName::KeepAlive_5 },
        TableRow { state: ConnectionState::Play, direction: PacketDirection::Client, id: 0x01, name: PacketName::Login_5 },
        TableRow { state: ConnectionState::Play, direction: PacketDirection::Client, id: 0x02, name: PacketName::Chat_5 },
        TableRow { state: ConnectionState::Play, direction: PacketDirection::Client, id: 0x03, name: PacketName::UpdateTime_5 },
        TableRow { state: ConnectionState::Play, direction: PacketDirection::Client, id: 0x04, name: PacketName::EntityEquipment_5 },
        TableRow { state: ConnectionState::Play, direction: PacketDirection::Client, id: 0x05, name: PacketName::SpawnPosition_5 },
        TableRow { state: ConnectionState::Play, direction: PacketDirection::Client, id: 0x06, name: PacketName::UpdateHealth_5 },
        TableRow { state: ConnectionState::Play, direction: PacketDirection::Client, id: 0x07, name: PacketName::Respawn_5 },
        TableRow { state: ConnectionState::Play, direction: PacketDirection::Client, id: 0x08, name: PacketName::Position_5 },
        TableRow { state: ConnectionState::Play, direction: PacketDirection::Client, id: 0x09, name: PacketName::HeldItemSlot_5 },
        TableRow { state: ConnectionState::Play, direction: PacketDirection::Client, id: 0x0a, name: PacketName::Bed_5 },
        TableRow { state: ConnectionState::Play, direction: PacketDirection::Client, id: 0x0b, name: PacketName::Animation_5 },
        TableRow { state: ConnectionState::Play, direction: PacketDirection::Client, id: 0x0d, name: PacketName::Collect_5 },
        TableRow { state: ConnectionState::Play, direction: PacketDirection::Client, id: 0x0f, name: PacketName::SpawnEntityLiving_5 },
        TableRow { state: ConnectionState::Play, direction: PacketDirection::Client, id: 0x10, name: PacketName::SpawnEntityPainting_5 },
        TableRow { state: ConnectionState::Play, direction: PacketDirection::Client, id: 0x11, name: PacketName::SpawnEntityExperienceOrb_5 },
        TableRow { state: ConnectionState::Play, direction: PacketDirection::Client, id: 0x12, name: PacketName::EntityVelocity_5 },
        TableRow { state: ConnectionState::Play, direction: PacketDirection::Client, id: 0x13, name: PacketName::EntityDestroy_5 },
        TableRow { state: ConnectionState::Play, direction: PacketDirection::Client, id: 0x14, name: PacketName::Entity_5 },
        TableRow { state: ConnectionState::Play, direction: PacketDirection::Client, id: 0x15, name: PacketName::RelEntityMove_5 },
        TableRow { state: ConnectionState::Play, direction: PacketDirection::Client, id: 0x16, name: PacketName::EntityLook_5 },
        TableRow { state: ConnectionState::Play, direction: PacketDirection::Client, id: 0x17, name: PacketName::EntityMoveLook_5 },
        TableRow { state: ConnectionState::Play, direction: PacketDirection::Client, id: 0x18, name: PacketName::EntityTeleport_5 },
        TableRow { state: ConnectionState::Play, direction: PacketDirection::Client, id: 0x19, name: PacketName::EntityHeadRotation_5 },
        TableRow { state: ConnectionState::Play, direction: PacketDirection::Client, id: 0x1a, name: PacketName::EntityStatus_5 },
        TableRow { state: ConnectionState::Play, direction: PacketDirection::Client, id: 0x1b, name: PacketName::AttachEntity_5 },
        TableRow { state: ConnectionState::Play, direction: PacketDirection::Client, id: 0x1c, name: PacketName::EntityMetadata_5 },
        TableRow { state: ConnectionState::Play, direction: PacketDirection::Client, id: 0x1d, name: PacketName::EntityEffect_5 },
        TableRow { state: ConnectionState::Play, direction: PacketDirection::Client, id: 0x1e, name: PacketName::RemoveEntityEffect_5 },
        TableRow { state: ConnectionState::Play, direction: PacketDirection::Client, id: 0x1f, name: PacketName::Experience_5 },
        TableRow { state: ConnectionState::Play, direction: PacketDirection::Client, id: 0x21, name: PacketName::MapChunk_5 },
        TableRow { state: ConnectionState::Play, direction: PacketDirection::Client, id: 0x22, name: PacketName::MultiBlockChange_5 },
        TableRow { state: ConnectionState::Play, direction: PacketDirection::Client, id: 0x23, name: PacketName::BlockChange_5 },
        TableRow { state: ConnectionState::Play, direction: PacketDirection::Client, id: 0x24, name: PacketName::BlockAction_5 },
        TableRow { state: ConnectionState::Play, direction: PacketDirection::Client, id: 0x25, name: PacketName::BlockBreakAnimation_5 },
        TableRow { state: ConnectionState::Play, direction: PacketDirection::Client, id: 0x26, name: PacketName::MapChunkBulk_5 },
        TableRow { state: ConnectionState::Play, direction: PacketDirection::Client, id: 0x27, name: PacketName::Explosion_5 },
        TableRow { state: ConnectionState::Play, direction: PacketDirection::Client, id: 0x28, name: PacketName::WorldEvent_5 },
        TableRow { state: ConnectionState::Play, direction: PacketDirection::Client, id: 0x29, name: PacketName::NamedSoundEffect_5 },
        TableRow { state: ConnectionState::Play, direction: PacketDirection::Client, id: 0x2a, name: PacketName::WorldParticles_5 },
        TableRow { state: ConnectionState::Play, direction: PacketDirection::Client, id: 0x2b, name: PacketName::GameStateChange_5 },
        TableRow { state: ConnectionState::Play, direction: PacketDirection::Client, id: 0x2c, name: PacketName::SpawnEntityWeather_5 },
        TableRow { state: ConnectionState::Play, direction: PacketDirection::Client, id: 0x2d, name: PacketName::OpenWindow_5 },
        TableRow { state: ConnectionState::Play, direction: PacketDirection::Client, id: 0x2e, name: PacketName::CloseWindow_5 },
        TableRow { state: ConnectionState::Play, direction: PacketDirection::Client, id: 0x2f, name: PacketName::SetSlot_5 },
        TableRow { state: ConnectionState::Play, direction: PacketDirection::Client, id: 0x31, name: PacketName::CraftProgressBar_5 },
        TableRow { state: ConnectionState::Play, direction: PacketDirection::Client, id: 0x32, name: PacketName::Transaction_5 },
        TableRow { state: ConnectionState::Play, direction: PacketDirection::Client, id: 0x33, name: PacketName::UpdateSign_5 },
        TableRow { state: ConnectionState::Play, direction: PacketDirection::Client, id: 0x34, name: PacketName::Map_5 },
        TableRow { state: ConnectionState::Play, direction: PacketDirection::Client, id: 0x36, name: PacketName::OpenSignEntity_5 },
        TableRow { state: ConnectionState::Play, direction: PacketDirection::Client, id: 0x38, name: PacketName::PlayerInfo_5 },
        TableRow { state: ConnectionState::Play, direction: PacketDirection::Client, id: 0x39, name: PacketName::Abilities_5 },
        TableRow { state: ConnectionState::Play, direction: PacketDirection::Client, id: 0x3b, name: PacketName::ScoreboardObjective_5 },
        TableRow { state: ConnectionState::Play, direction: PacketDirection::Client, id: 0x3c, name: PacketName::ScoreboardScore_5 },
        TableRow { state: ConnectionState::Play, direction: PacketDirection::Client, id: 0x3d, name: PacketName::ScoreboardDisplayObjective_5 },
        TableRow { state: ConnectionState::Play, direction: PacketDirection::Client, id: 0x3f, name: PacketName::CustomPayload_5 },
        TableRow { state: ConnectionState::Play, direction: PacketDirection::Client, id: 0x40, name: PacketName::KickDisconnect_5 },
        TableRow { state: ConnectionState::Play, direction: PacketDirection::Server, id: 0x00, name: PacketName::KeepAlive_5 },
        TableRow { state: ConnectionState::Play, direction: PacketDirection::Server, id: 0x01, name: PacketName::ChatServerbound_5 },
        TableRow { state: ConnectionState::Play, direction: PacketDirection::Server, id: 0x02, name: PacketName::UseEntity_5 },
        TableRow { state: ConnectionState::Play, direction: PacketDirection::Server, id: 0x03, name: PacketName::Flying_5 },
        TableRow { state: ConnectionState::Play, direction: PacketDirection::Server, id: 0x05, name: PacketName::Look_5 },
        TableRow { state: ConnectionState::Play, direction: PacketDirection::Server, id: 0x06, name: PacketName::PositionLook_5 },
        TableRow { state: ConnectionState::Play, direction: PacketDirection::Server, id: 0x07, name: PacketName::BlockDig_5 },
        TableRow { state: ConnectionState::Play, direction: PacketDirection::Server, id: 0x08, name: PacketName::BlockPlace_5 },
        TableRow { state: ConnectionState::Play, direction: PacketDirection::Server, id: 0x09, name: PacketName::HeldItemSlot_5 },
        TableRow { state: ConnectionState::Play, direction: PacketDirection::Server, id: 0x0a, name: PacketName::ArmAnimation_5 },
        TableRow { state: ConnectionState::Play, direction: PacketDirection::Server, id: 0x0b, name: PacketName::EntityAction_5 },
        TableRow { state: ConnectionState::Play, direction: PacketDirection::Server, id: 0x0c, name: PacketName::SteerVehicle_5 },
        TableRow { state: ConnectionState::Play, direction: PacketDirection::Server, id: 0x0d, name: PacketName::CloseWindow_5 },
        TableRow { state: ConnectionState::Play, direction: PacketDirection::Server, id: 0x0e, name: PacketName::WindowClick_5 },
        TableRow { state: ConnectionState::Play, direction: PacketDirection::Server, id: 0x0f, name: PacketName::Transaction_5 },
        TableRow { state: ConnectionState::Play, direction: PacketDirection::Server, id: 0x10, name: PacketName::SetCreativeSlot_5 },
        TableRow { state: ConnectionState::Play, direction: PacketDirection::Server, id: 0x11, name: PacketName::EnchantItem_5 },
        TableRow { state: ConnectionState::Play, direction: PacketDirection::Server, id: 0x12, name: PacketName::UpdateSign_5 },
        TableRow { state: ConnectionState::Play, direction: PacketDirection::Server, id: 0x13, name: PacketName::Abilities_5 },
        TableRow { state: ConnectionState::Play, direction: PacketDirection::Server, id: 0x15, name: PacketName::Settings_5 },
        TableRow { state: ConnectionState::Play, direction: PacketDirection::Server, id: 0x16, name: PacketName::ClientCommand_5 },
        TableRow { state: ConnectionState::Play, direction: PacketDirection::Server, id: 0x17, name: PacketName::CustomPayload_5 },
    ]
}

fn rows_1_7_6_exec() -> (r: Vec<TableRow>)
    ensures
        r@ == rows_1_7_6(),
{
    let r: Vec<TableRow> = vec![
        TableRow { state: ConnectionState::Handshaking, direction: PacketDirection::Server, id: 0x00, name: PacketName::SetProtocol_5 },
        TableRow { state: ConnectionState::Handshaking, direction: PacketDirection::Server, id: 0xfe, name: PacketName::LegacyServerListPing_5 },
        TableRow { state: ConnectionState::Status, direction: PacketDirection::Client, id: 0x00, name: PacketName::ServerInfo_5 },
        TableRow { state: ConnectionState::Status, direction: PacketDirection::Client, id: 0x01, name: PacketName::Ping_5 },
        TableRow { state: ConnectionState::Status, direction: PacketDirection::Server, id: 0x00, name: PacketName::PingStart_5 },
        TableRow { state: ConnectionState::Status, direction: PacketDirection::Server, id: 0x01, name: PacketName::Ping_5 },
        TableRow { state: ConnectionState::Login, direction: PacketDirection::Client, id: 0x00, name: PacketName::Disconnect_5 },
        TableRow { state: ConnectionState::Login, direction: PacketDirection::Client, id: 0x01, name: PacketName::EncryptionBegin_5 },
        TableRow { state: ConnectionState::Login, direction: PacketDirection::Client, id: 0x02, name: PacketName::Success_5 },
        TableRow { state: ConnectionState::Login, direction: PacketDirection::Server, id: 0x00, name: PacketName::LoginStart_5 },
        TableRow { state: ConnectionState::Login, direction: PacketDirection::Server, id: 0x01, name: PacketName::EncryptionBeginServerbound_5 },
        TableRow { state: ConnectionState::Play, direction: PacketDirection::Client, id: 0x00, name: PacketName::KeepAlive_5 },
        TableRow { state: ConnectionState::Play, direction: PacketDirection::Client, id: 0x01, name: PacketName::Login_5 },
        TableRow { state: ConnectionState::Play, direction: PacketDirection::Client, id: 0x02, name: PacketName::Chat_5 },
        TableRow { state: ConnectionState::Play, direction: PacketDirection::Client, id: 0x03, name: PacketName::UpdateTime_5 },
        TableRow { state: ConnectionState::Play, direction: PacketDirection::Client, id: 0x04, name: PacketName::EntityEquipment_5 },
        TableRow { state: ConnectionState::Play, direction: PacketDirection::Client, id: 0x05, name: PacketName::SpawnPosition_5 },
        TableRow { state: ConnectionState::Play, direction: PacketDirection::Client, id: 0x06, name: PacketName::UpdateHealth_5 },
        TableRow { state: ConnectionState::Play, direction: PacketDirection::Client, id: 0x07, name: PacketName::Respawn_5 },
        TableRow { state: ConnectionState::Play, direction: PacketDirection::Client, id: 0x08, name: PacketName::Position_5 },
        TableRow { state: ConnectionState::Play, direction: PacketDirection::Client, id: 0x09, name: PacketName::HeldItemSlot_5 },
        TableRow { state: ConnectionState::Play, direction: PacketDirection::Client, id: 0x0a, name: PacketName::Bed_5 },
        TableRow { state: ConnectionState::Play, direction: PacketDirection::Client, id: 0x0b, name: PacketName::Animation_5 },
        TableRow { state: ConnectionState::Play, direction: PacketDirection::Client, id: 0x0d, name: PacketName::Collect_5 },
        TableRow { state: ConnectionState::Play, direction: PacketDirection::Client, id: 0x0f, name: PacketName::SpawnEntityLiving_5 },
        TableRow { state: ConnectionState::Play, direction: PacketDirection::Client, id: 0x10, name: PacketName::SpawnEntityPainting_5 },
        TableRow { state: ConnectionState::Play, direction: PacketDirection::Client, id: 0x11, name: PacketName::SpawnEntityExperienceOrb_5 },
        TableRow { state: ConnectionState::Play, direction: PacketDirection::Client, id: 0x12, name: PacketName::EntityVelocity_5 },
        TableRow { state: ConnectionState::Play, direction: PacketDirection::Client, id: 0x13, name: PacketName::EntityDestroy_5 },
        TableRow { state: ConnectionState::Play, direction: PacketDirection::Client, id: 0x14, name: PacketName::Entity_5 },
        TableRow { state: ConnectionState::Play, direction: PacketDirection::Client, id: 0x15, name: PacketName::RelEntityMove_5 },
        TableRow { state: ConnectionState::Play, direction: PacketDirection::Client, id: 0x16, name: PacketName::EntityLook_5 },
        TableRow { state: ConnectionState::Play, direction: PacketDirection::Client, id: 0x17, name: PacketName::EntityMoveLook_5 },
        TableRow { state: ConnectionState::Play, direction: PacketDirection::Client, id: 0x18, name: PacketName::EntityTeleport_5 },
        TableRow { state: ConnectionState::Play, direction: PacketDirection::Client, id: 0x19, name: PacketName::EntityHeadRotation_5 },
        TableRow { state: ConnectionState::Play, direction: PacketDirection::Client, id: 0x1a, name: PacketName::EntityStatus_5 },
        TableRow { state: ConnectionState::Play, direction: PacketDirection::Client, id: 0x1b, name: PacketName::AttachEntity_5 },
        TableRow { state: ConnectionState::Play, direction: PacketDirection::Client, id: 0x1c, name: PacketName::EntityMetadata_5 },
        TableRow { state: ConnectionState::Play, direction: PacketDirection::Client, id: 0x1d, name: PacketName::EntityEffect_5 },
        TableRow { state: ConnectionState::Play, direction: PacketDirection::Client, id: 0x1e, name: PacketName::RemoveEntityEffect_5 },
        TableRow { state: ConnectionState::Play, direction: PacketDirection::Client, id: 0x1f, name: PacketName::Experience_5 },
        TableRow { state: ConnectionState::Play, direction: PacketDirection::Client, id: 0x21, name: PacketName::MapChunk_5 },
        TableRow { state: ConnectionState::Play, direction: PacketDirection::Client, id: 0x22, name: PacketName::MultiBlockChange_5 },
        TableRow { state: ConnectionState::Play, direction: PacketDirection::Client, id: 0x23, name: PacketName::BlockChange_5 },
        TableRow { state: ConnectionState::Play, direction: PacketDirection::Client, id: 0x24, name: PacketName::BlockAction_5 },
        TableRow { state: ConnectionState::Play, direction: PacketDirection::Client, id: 0x25, name: PacketName::BlockBreakAnimation_5 },
        TableRow { state: ConnectionState::Play, direction: PacketDirection::Client, id: 0x26, name: PacketName::MapChunkBulk_5 },
        TableRow { state: ConnectionState::Play, direction: PacketDirection::Client, id: 0x27, name: PacketName::Explosion_5 },
        TableRow { state: ConnectionState::Play, direction: PacketDirection::Client, id: 0x28, name: PacketName::WorldEvent_5 },
        TableRow { state: ConnectionState::Play, direction: PacketDirection::Client, id: 0x29, name: PacketName::NamedSoundEffect_5 },
        TableRow { state: ConnectionState::Play, direction: PacketDirection::Client, id: 0x2a, name: PacketName::WorldParticles_5 },
        TableRow { state: ConnectionState::Play, direction: PacketDirection::Client, id: 0x2b, name: PacketName::GameStateChange_5 },
        TableRow { state: ConnectionState::Play, direction: PacketDirection::Client, id: 0x2c, name: PacketName::SpawnEntityWeather_5 },
        TableRow { state: ConnectionState::Play, direction: PacketDirection::Client, id: 0x2d, name: PacketName::OpenWindow_5 },
        TableRow { state: ConnectionState::Play, direction: PacketDirection::Client, id: 0x2e, name: PacketName::CloseWindow_5 },
        TableRow { state: ConnectionState::Play, direction: PacketDirection::Client, id: 0x2f, name: PacketName::SetSlot_5 },
        TableRow { state: ConnectionState::Play, direction: PacketDirection::Client, id: 0x31, name: PacketName::CraftProgressBar_5 },
        TableRow { state: ConnectionState::Play, direction: PacketDirection::Client, id: 0x32, name: PacketName::Transaction_5 },
        TableRow { state: ConnectionState::Play, direction: PacketDirection::Client, id: 0x33, name: PacketName::UpdateSign_5 },
        TableRow { state: ConnectionState::Play, direction: PacketDirection::Client, id: 0x34, name: PacketName::Map_5 },
        TableRow { state: ConnectionState::Play, direction: PacketDirection::Client, id: 0x36, name: PacketName::OpenSignEntity_5 },
        TableRow { state: ConnectionState::Play, direction: PacketDirection::Client, id: 0x38, name: PacketName::PlayerInfo_5 },
        TableRow { state: ConnectionState::Play, direction: PacketDirection::Client, id: 0x39, name: PacketName::Abilities_5 },
        TableRow { state: ConnectionState::Play, direction: PacketDirection::Client, id: 0x3b, name: PacketName::ScoreboardObjective_5 },
        TableRow { state: ConnectionState::Play, direction: PacketDirection::Client, id: 0x3c, name: PacketName::ScoreboardScore_5 },
        TableRow { state: ConnectionState::Play, direction: PacketDirection::Client, id: 0x3d, name: PacketName::ScoreboardDisplayObjective_5 },
        TableRow { state: ConnectionState::Play, direction: PacketDirection::Client, id: 0x3f, name: PacketName::CustomPayload_5 },
        TableRow { state: ConnectionState::Play, direction: PacketDirection::Client, id: 0x40, name: PacketName::KickDisconnect_5 },
        TableRow { state: ConnectionState::Play, direction: PacketDirection::Server, id: 0x00, name: PacketName::KeepAlive_5 },
        TableRow { state: ConnectionState::Play, direction: PacketDirection::Server, id: 0x01, name: PacketName::ChatServerbound_5 },
        TableRow { state: ConnectionState::Play, direction: PacketDirection::Server, id: 0x02, name: PacketName::UseEntity_5 },
        TableRow { state: ConnectionState::Play, direction: PacketDirection::Server, id: 0x03, name: PacketName::Flying_5 },
        TableRow { state: ConnectionState::Play, direction: PacketDirection::Server, id: 0x05, name: PacketName::Look_5 },
        TableRow { state: ConnectionState::Play, direction: PacketDirection::Server, id: 0x06, name: PacketName::PositionLook_5 },
        TableRow { state: ConnectionState::Play, direction: PacketDirection::Server, id: 0x07, name: PacketName::BlockDig_5 },
        TableRow { state: ConnectionState::Play, direction: PacketDirection::Server, id: 0x08, name: PacketName::BlockPlace_5 },
        TableRow { state: ConnectionState::Play, direction: PacketDirection::Server, id: 0x09, name: PacketName::HeldItemSlot_5 },
        TableRow { state: ConnectionState::Play, direction: PacketDirection::Server, id: 0x0a, name: PacketName::ArmAnimation_5 },
        TableRow { state: ConnectionState::Play, direction: PacketDirection::Server, id: 0x0b, name: PacketName::EntityAction_5 },
        TableRow { state: ConnectionState::Play, direction: PacketDirection::Server, id: 0x0c, name: PacketName::SteerVehicle_5 },
        TableRow { state: ConnectionState::Play, direction: PacketDirection::Server, id: 0x0d, name: PacketName::CloseWindow_5 },
        TableRow { state: ConnectionState::Play, direction: PacketDirection::Server, id: 0x0e, name: PacketName::WindowClick_5 },
        TableRow { state: ConnectionState::Play, direction: PacketDirection::Server, id: 0x0f, name: PacketName::Transaction_5 },
        TableRow { state: ConnectionState::Play, direction: PacketDirection::Server, id: 0x10, name: PacketName::SetCreativeSlot_5 },
        TableRow { state: ConnectionState::Play, direction: PacketDirection::Server, id: 0x11, name: PacketName::EnchantItem_5 },
        TableRow { state: ConnectionState::Play, direction: PacketDirection::Server, id: 0x12, name: PacketName::UpdateSign_5 },
        TableRow { state: ConnectionState::Play, direction: PacketDirection::Server, id: 0x13, name: PacketName::Abilities_5 },
        TableRow { state: ConnectionState::Play, direction: PacketDirection::Server, id: 0x15, name: PacketName::Settings_5 },
        TableRow { state: ConnectionState::Play, direction: PacketDirection::Server, id: 0x16, name: PacketName::ClientCommand_5 },
        TableRow { state: ConnectionState::Play, direction: PacketDirection::Server, id: 0x17, name: PacketName::CustomPayload_5 },
    ];
    assert(r@ =~= rows_1_7_6());
    r
}

/// The packets of 1.8 (protocol 47): state, direction, id and layout of each packet.
pub open spec fn rows_1_8() -> Seq<TableRow> {
    seq![
        TableRow { state: ConnectionState::Handshaking, direction: PacketDirection::Server, id: 0x00, name: PacketName::SetProtocol_5 },
        TableRow { state: ConnectionState::Handshaking, direction: PacketDirection::Server, id: 0xfe, name: PacketName::LegacyServerListPing_5 },
        TableRow { state: ConnectionState::Status, direction: PacketDirection::Client, id: 0x00, name: PacketName::ServerInfo_5 },
        TableRow { state: ConnectionState::Status, direction: PacketDirection::Client, id: 0x01, name: PacketName::Ping_5 },
        TableRow { state: ConnectionState::Status, direction: PacketDirection::Server, id: 0x00, name: PacketName::PingStart_5 },
        TableRow { state: ConnectionState::Status, direction: PacketDirection::Server, id: 0x01, name: PacketName::Ping_5 },
        TableRow { state: ConnectionState::Login, direction: PacketDirection::Client, id: 0x00, name: PacketName::Disconnect_5 },
        TableRow { state: ConnectionState::Login, direction: PacketDirection::Client, id: 0x01, name: PacketName::EncryptionBegin_47 },
        TableRow { state: ConnectionState::Login, direction: PacketDirection::Client, id: 0x02, name: PacketName::Success_5 },
        TableRow { state: ConnectionState::Login, direction: PacketDirection::Client, id: 0x03, name: PacketName::Compress_47 },
        TableRow { state: ConnectionState::Login, direction: PacketDirection::Server, id: 0x00, name: PacketName::LoginStart_5 },
        TableRow { state: ConnectionState::Login, direction: PacketDirection::Server, id: 0x01, name: PacketName::EncryptionBeginServerbound_47 },
        TableRow { state: ConnectionState::Play, direction: PacketDirection::Client, id: 0x00, name: PacketName::KeepAlive_47 },
        TableRow { state: ConnectionState::Play, direction: PacketDirection::Client, id: 0x01, name: PacketName::Login_47 },
        TableRow { state: ConnectionState::Play, direction: PacketDirection::Client, id: 0x02, name: PacketName::Chat_47 },
        TableRow { state: ConnectionState::Play, direction: PacketDirection::Client, id: 0x03, name: PacketName::UpdateTime_5 },
        TableRow { state: ConnectionState::Play, direction: PacketDirection::Client, id: 0x04, name: PacketName::EntityEquipment_47 },
        TableRow { state: ConnectionState::Play, direction: PacketDirection::Client, id: 0x05, name: PacketName::SpawnPosition_47 },
        TableRow { state: ConnectionState::Play, direction: PacketDirection::Client, id: 0x06, name: PacketName::UpdateHealth_47 },
        TableRow { state: ConnectionState::Play, direction: PacketDirection::Client, id: 0x07, name: PacketName::Respawn_5 },
        TableRow { state: ConnectionState::Play, direction: PacketDirection::Client, id: 0x08, name: PacketName::Position_47 },
        TableRow { state: ConnectionState::Play, direction: PacketDirection::Client, id: 0x09, name: PacketName::HeldItemSlot_5 },
        TableRow { state: ConnectionState::Play, direction: PacketDirection::Client, id: 0x0a, name: PacketName::Bed_47 },
        TableRow { state: ConnectionState::Play, direction: PacketDirection::Client, id: 0x0b, name: PacketName::Animation_5 },
        TableRow { state: ConnectionState::Play, direction: PacketDirection::Client, id: 0x0c, name: PacketName::NamedEntitySpawn_47 },
        TableRow { state: ConnectionState::Play, direction: PacketDirection::Client, id: 0x0d, name: PacketName::Collect_47 },
        TableRow { state: ConnectionState::Play, direction: PacketDirection::Client, id: 0x0f, name: PacketName::SpawnEntityLiving_5 },
        TableRow { state: ConnectionState::Play, direction: PacketDirection::Client, id: 0x10, name: PacketName::SpawnEntityPainting_47 },
        TableRow { state: ConnectionState::Play, direction: PacketDirection::Client, id: 0x11, name: PacketName::SpawnEntityExperienceOrb_5 },
        TableRow { state: ConnectionState::Play, direction: PacketDirection::Client, id: 0x12, name: PacketName::EntityVelocity_47 },
        TableRow { state: ConnectionState::Play, direction: PacketDirection::Client, id: 0x13, name: PacketName::EntityDestroy_47 },
        TableRow { state: ConnectionState::Play, direction: PacketDirection::Client, id: 0x14, name: PacketName::Entity_47 },
        TableRow { state: ConnectionState::Play, direction: PacketDirection::Client, id: 0x15, name: PacketName::RelEntityMove_47 },
        TableRow { state: ConnectionState::Play, direction: PacketDirection::Client, id: 0x16, name: PacketName::EntityLook_47 },
        TableRow { state: ConnectionState::Play, direction: PacketDirection::Client, id: 0x17, name: PacketName::EntityMoveLook_47 },
        TableRow { state: ConnectionState::Play, direction: PacketDirection::Client, id: 0x18, name: PacketName::EntityTeleport_47 },
        TableRow { state: ConnectionState::Play, direction: PacketDirection::Client, id: 0x19, name: PacketName::EntityHeadRotation_47 },
        TableRow { state: ConnectionState::Play, direction: PacketDirection::Client, id: 0x1a, name: PacketName::EntityStatus_5 },
        TableRow { state: ConnectionState::Play, direction: PacketDirection::Client, id: 0x1b, name: PacketName::AttachEntity_5 },
        TableRow { state: ConnectionState::Play, direction: PacketDirection::Client, id: 0x1c, name: PacketName::EntityMetadata_47 },
        TableRow { state: ConnectionState::Play, direction: PacketDirection::Client, id: 0x1d, name: PacketName::EntityEffect_47 },
        TableRow { state: ConnectionState::Play, direction: PacketDirection::Client, id: 0x1e, name: PacketName::RemoveEntityEffect_47 },
        TableRow { state: ConnectionState::Play, direction: PacketDirection::Client, id: 0x1f, name: PacketName::Experience_47 },
        TableRow { state: ConnectionState::Play, direction: PacketDirection::Client, id: 0x21, name: PacketName::MapChunk_47 },
        TableRow { state: ConnectionState::Play, direction: PacketDirection::Client, id: 0x22, name: PacketName::MultiBlockChange_47 },
        TableRow { state: ConnectionState::Play, direction: PacketDirection::Client, id: 0x23, name: PacketName::BlockChange_47 },
        TableRow { state: ConnectionState::Play, direction: PacketDirection::Client, id: 0x24, name: PacketName::BlockAction_47 },
        TableRow { state: ConnectionState::Play, direction: PacketDirection::Client, id: 0x25, name: PacketName::BlockBreakAnimation_47 },
        TableRow { state: ConnectionState::Play, direction: PacketDirection::Client, id: 0x26, name: PacketName::MapChunkBulk_47 },
        TableRow { state: ConnectionState::Play, direction: PacketDirection::Client, id: 0x27, name: PacketName::Explosion_5 },
        TableRow { state: ConnectionState::Play, direction: PacketDirection::Client, id: 0x28, name: PacketName::WorldEvent_47 },
        TableRow { state: ConnectionState::Play, direction: PacketDirection::Client, id: 0x29, name: PacketName::NamedSoundEffect_5 },
        TableRow { state: ConnectionState::Play, direction: PacketDirection::Client, id: 0x2b, name: PacketName::GameStateChange_5 },
        TableRow { state: ConnectionState::Play, direction: PacketDirection::Client, id: 0x2c, name: PacketName::SpawnEntityWeather_5 },
        TableRow { state: ConnectionState::Play, direction: PacketDirection::Client, id: 0x2e, name: PacketName::CloseWindow_5 },
        TableRow { state: ConnectionState::Play, direction: PacketDirection::Client, id: 0x2f, name: PacketName::SetSlot_5 },
        TableRow { state: ConnectionState::Play, direction: PacketDirection::Client, id: 0x31, name: PacketName::CraftProgressBar_5 },
        TableRow { state: ConnectionState::Play, direction: PacketDirection::Client, id: 0x32, name: PacketName::Transaction_47 },
        TableRow { state: ConnectionState::Play, direction: PacketDirection::Client, id: 0x33, name: PacketName::UpdateSign_47 },
        TableRow { state: ConnectionState::Play, direction: PacketDirection::Client, id: 0x36, name: PacketName::OpenSignEntity_47 },
        TableRow { state: ConnectionState::Play, direction: PacketDirection::Client, id: 0x39, name: PacketName::Abilities_5 },
        TableRow { state: ConnectionState::Play, direction: PacketDirection::Client, id: 0x3b, name: PacketName::ScoreboardObjective_47 },
        TableRow { state: ConnectionState::Play, direction: PacketDirection::Client, id: 0x3c, name: PacketName::ScoreboardScore_47 },
        TableRow { state: ConnectionState::Play, direction: PacketDirection::Client, id: 0x3d, name: PacketName::ScoreboardDisplayObjective_5 },
        TableRow { state: ConnectionState::Play, direction: PacketDirection::Client, id: 0x3f, name: PacketName::CustomPayload_47 },
        TableRow { state: ConnectionState::Play, direction: PacketDirection::Client, id: 0x40, name: PacketName::KickDisconnect_5 },
        TableRow { state: ConnectionState::Play, direction: PacketDirection::Client, id: 0x41, name: PacketName::Difficulty_47 },
        TableRow { state: ConnectionState::Play, direction: PacketDirection::Client, id: 0x42, name: PacketName::CombatEvent_47 },
        TableRow { state: ConnectionState::Play, direction: PacketDirection::Client, id: 0x43, name: PacketName::Camera_47 },
        TableRow { state: ConnectionState::Play, direction: PacketDirection::Client, id: 0x44, name: PacketName::WorldBorder_47 },
        TableRow { state: ConnectionState::Play, direction: PacketDirection::Client, id: 0x45, name: PacketName::Title_47 },
        TableRow { state: ConnectionState::Play, direction: PacketDirection::Client, id: 0x46, name: PacketName::SetCompression_47 },
        TableRow { state: ConnectionState::Play, direction: PacketDirection::Client, id: 0x47, name: PacketName::PlayerlistHeader_47 },
        TableRow { state: ConnectionState::Play, direction: PacketDirection::Client, id: 0x48, name: PacketName::ResourcePackSend_47 },
        TableRow { state: ConnectionState::Play, direction: PacketDirection::Server, id: 0x00, name: PacketName::KeepAlive_47 },
        TableRow { state: ConnectionState::Play, direction: PacketDirection::Server, id: 0x01, name: PacketName::ChatServerbound_5 },
        TableRow { state: ConnectionState::Play, direction: PacketDirection::Server, id: 0x02, name: PacketName::UseEntity_47 },
        TableRow { state: ConnectionState::Play, direction: PacketDirection::Server, id: 0x03, name: PacketName::Flying_5 },
        TableRow { state: ConnectionState::Play, direction: PacketDirection::Server, id: 0x05, name: PacketName::Look_5 },
        TableRow { state: ConnectionState::Play, direction: PacketDirection::Server, id: 0x06, name: PacketName::PositionLook_47 },
        TableRow { state: ConnectionState::Play, direction: PacketDirection::Server, id: 0x07, name: PacketName::BlockDig_47 },
        TableRow { state: ConnectionState::Play, direction: PacketDirection::Server, id: 0x08, name: PacketName::BlockPlace_47 },
        TableRow { state: ConnectionState::Play, direction: PacketDirection::Server, id: 0x09, name: PacketName::HeldItemSlot_5 },
        TableRow { state: ConnectionState::Play, direction: PacketDirection::Server, id: 0x0a, name: PacketName::ArmAnimation_47 },
        TableRow { state: ConnectionState::Play, direction: PacketDirection::Server, id: 0x0b, name: PacketName::EntityAction_47 },
        TableRow { state: ConnectionState::Play, direction: PacketDirection::Server, id: 0x0c, name: PacketName::SteerVehicle_47 },
        TableRow { state: ConnectionState::Play, direction: PacketDirection::Server, id: 0x0d, name: PacketName::CloseWindow_5 },
        TableRow { state: ConnectionState::Play, direction: PacketDirection::Server, id: 0x0e, name: PacketName::WindowClick_47 },
        TableRow { state: ConnectionState::Play, direction: PacketDirection::Server, id: 0x0f, name: PacketName::Transaction_5 },
        TableRow { state: ConnectionState::Play, direction: PacketDirection::Server, id: 0x10, name: PacketName::SetCreativeSlot_5 },
        TableRow { state: ConnectionState::Play, direction: PacketDirection::Server, id: 0x11, name: PacketName::EnchantItem_5 },
        TableRow { state: ConnectionState::Play, direction: PacketDirection::Server, id: 0x12, name: PacketName::UpdateSign_47 },
        TableRow { state: ConnectionState::Play, direction: PacketDirection::Server, id: 0x13, name: PacketName::Abilities_5 },
        TableRow { state: ConnectionState::Play, direction: PacketDirection::Server, id: 0x15, name: PacketName::Settings_47 },
        TableRow { state: ConnectionState::Play, direction: PacketDirection::Server, id: 0x16, name: PacketName::ClientCommand_47 },
        TableRow { state: ConnectionState::Play, direction: PacketDirection::Server, id: 0x17, name: PacketName::CustomPayload_47 },
        TableRow { state: ConnectionState::Play, direction: PacketDirection::Server, id: 0x18, name: PacketName::Spectate_47 },
        TableRow { state: ConnectionState::Play, direction: PacketDirection::Server, id: 0x19, name: PacketName::ResourcePackReceive_47 },
    ]
}

fn rows_1_8_exec() -> (r: Vec<TableRow>)
    ensures
        r@ == rows_1_8(),
{
    let r: Vec<TableRow> = vec![
        TableRow { state: ConnectionState::Handshaking, direction: PacketDirection::Server, id: 0x00, name: PacketName::SetProtocol_5 },
        TableRow { state: ConnectionState::Handshaking, direction: PacketDirection::Server, id: 0xfe, name: PacketName::LegacyServerListPing_5 },
        TableRow { state: ConnectionState::Status, direction: PacketDirection::Client, id: 0x00, name: PacketName::ServerInfo_5 },
        TableRow { state: ConnectionState::Status, direction: PacketDirection::Client, id: 0x01, name: PacketName::Ping_5 },
        TableRow { state: ConnectionState::Status, direction: PacketDirection::Server, id: 0x00, name: PacketName::PingStart_5 },
        TableRow { state: ConnectionState::Status, direction: PacketDirection::Server, id: 0x01, name: PacketName::Ping_5 },
        TableRow { state: ConnectionState::Login, direction: PacketDirection::Client, id: 0x00, name: PacketName::Disconnect_5 },
        TableRow { state: ConnectionState::Login, direction: PacketDirection::Client, id: 0x01, name: PacketName::EncryptionBegin_47 },
        TableRow { state: ConnectionState::Login, direction: PacketDirection::Client, id: 0x02, name: PacketName::Success_5 },
        TableRow { state: ConnectionState::Login, direction: PacketDirection::Client, id: 0x03, name: PacketName::Compress_47 },
        TableRow { state: ConnectionState::Login, direction: PacketDirection::Server, id: 0x00, name: PacketName::LoginStart_5 },
        TableRow { state: ConnectionState::Login, direction: PacketDirection::Server, id: 0x01, name: PacketName::EncryptionBeginServerbound_47 },
        TableRow { state: ConnectionState::Play, direction: PacketDirection::Client, id: 0x00, name: PacketName::KeepAlive_47 },
        TableRow { state: ConnectionState::Play, direction: PacketDirection::Client, id: 0x01, name: PacketName::Login_47 },
        TableRow { state: ConnectionState::Play, direction: PacketDirection::Client, id: 0x02, name: PacketName::Chat_47 },
        TableRow { state: ConnectionState::Play, direction: PacketDirection::Client, id: 0x03, name: PacketName::UpdateTime_5 },
        TableRow { state: ConnectionState::Play, direction: PacketDirection::Client, id: 0x04, name: PacketName::EntityEquipment_47 },
        TableRow { state: ConnectionState::Play, direction: PacketDirection::Client, id: 0x05, name: PacketName::SpawnPosition_47 },
        TableRow { state: ConnectionState::Play, direction: PacketDirection::Client, id: 0x06, name: PacketName::UpdateHealth_47 },
        TableRow { state: ConnectionState::Play, direction: PacketDirection::Client, id: 0x07, name: PacketName::Respawn_5 },
        TableRow { state: ConnectionState::Play, direction: PacketDirection::Client, id: 0x08, name: PacketName::Position_47 },
        TableRow { state: ConnectionState::Play, direction: PacketDirection::Client, id: 0x09, name: PacketName::HeldItemSlot_5 },
        TableRow { state: ConnectionState::Play, direction: PacketDirection::Client, id: 0x0a, name: PacketName::Bed_47 },
        TableRow { state: ConnectionState::Play, direction: PacketDirection::Client, id: 0x0b, name: PacketName::Animation_5 },
        TableRow { state: ConnectionState::Play, direction: PacketDirection::Client, id: 0x0c, name: PacketName::NamedEntitySpawn_47 },
        TableRow { state: ConnectionState::Play, direction: PacketDirection::Client, id: 0x0d, name: PacketName::Collect_47 },
        TableRow { state: ConnectionState::Play, direction: PacketDirection::Client, id: 0x0f, name: PacketName::SpawnEntityLiving_5 },
        TableRow { state: ConnectionState::Play, direction: PacketDirection::Client, id: 0x10, name: PacketName::SpawnEntityPainting_47 },
        TableRow { state: ConnectionState::Play, direction: PacketDirection::Client, id: 0x11, name: PacketName::SpawnEntityExperienceOrb_5 },
        TableRow { state: ConnectionState::Play, direction: PacketDirection::Client, id: 0x12, name: PacketName::EntityVelocity_47 },
        TableRow { state: ConnectionState::Play, direction: PacketDirection::Client, id: 0x13, name: PacketName::EntityDestroy_47 },
        TableRow { state: ConnectionState::Play, direction: PacketDirection::Client, id: 0x14, name: PacketName::Entity_47 },
        TableRow { state: ConnectionState::Play, direction: PacketDirection::Client, id: 0x15, name: PacketName::RelEntityMove_47 },
        TableRow { state: ConnectionState::Play, direction: PacketDirection::Client, id: 0x16, name: PacketName::EntityLook_47 },
        TableRow { state: ConnectionState::Play, direction: PacketDirection::Client, id: 0x17, name: PacketName::EntityMoveLook_47 },
        TableRow { state: ConnectionState::Play, direction: PacketDirection::Client, id: 0x18, name: PacketName::EntityTeleport_47 },
        TableRow { state: ConnectionState::Play, direction: PacketDirection::Client, id: 0x19, name: PacketName::EntityHeadRotation_47 },
        TableRow { state: ConnectionState::Play, direction: PacketDirection::Client, id: 0x1a, name: PacketName::EntityStatus_5 },
        TableRow { state: ConnectionState::Play, direction: PacketDirection::Client, id: 0x1b, name: PacketName::AttachEntity_5 },
        TableRow { state: ConnectionState::Play, direction: PacketDirection::Client, id: 0x1c, name: PacketName::EntityMetadata_47 },
        TableRow { state: ConnectionState::Play, direction: PacketDirection::Client, id: 0x1d, name: PacketName::EntityEffect_47 },
        TableRow { state: ConnectionState::Play, direction: PacketDirection::Client, id: 0x1e, name: PacketName::RemoveEntityEffect_47 },
        TableRow { state: ConnectionState::Play, direction: PacketDirection::Client, id: 0x1f, name: PacketName::Experience_47 },
        TableRow { state: ConnectionState::Play, direction: PacketDirection::Client, id: 0x21, name: PacketName::MapChunk_47 },
        TableRow { state: ConnectionState::Play, direction: PacketDirection::Client, id: 0x22, name: PacketName::MultiBlockChange_47 },
        TableRow { state: ConnectionState::Play, direction: PacketDirection::Client, id: 0x23, name: PacketName::BlockChange_47 },
        TableRow { state: ConnectionState::Play, direction: PacketDirection::Client, id: 0x24, name: PacketName::BlockAction_47 },
        TableRow { state: ConnectionState::Play, direction: PacketDirection::Client, id: 0x25, name: PacketName::BlockBreakAnimation_47 },
        TableRow { state: ConnectionState::Play, direction: PacketDirection::Client, id: 0x26, name: PacketName::MapChunkBulk_47 },
        TableRow { state: ConnectionState::Play, direction: PacketDirection::Client, id: 0x27, name: PacketName::Explosion_5 },
        TableRow { state: ConnectionState::Play, direction: PacketDirection::Client, id: 0x28, name: PacketName::WorldEvent_47 },
        TableRow { state: ConnectionState::Play, direction: PacketDirection::Client, id: 0x29, name: PacketName::NamedSoundEffect_5 },
        TableRow { state: ConnectionState::Play, direction: PacketDirection::Client, id: 0x2b, name: PacketName::GameStateChange_5 },
        TableRow { state: ConnectionState::Play, direction: PacketDirection::Client, id: 0x2c, name: PacketName::SpawnEntityWeather_5 },
        TableRow { state: ConnectionState::Play, direction: PacketDirection::Client, id: 0x2e, name: PacketName::CloseWindow_5 },
        TableRow { state: ConnectionState::Play, direction: PacketDirection::Client, id: 0x2f, name: PacketName::SetSlot_5 },
        TableRow { state: ConnectionState::Play, direction: PacketDirection::Client, id: 0x31, name: PacketName::CraftProgressBar_5 },
        TableRow { state: ConnectionState::Play, direction: PacketDirection::Client, id: 0x32, name: PacketName::Transaction_47 },
        TableRow { state: ConnectionState::Play, direction: PacketDirection::Client, id: 0x33, name: PacketName::UpdateSign_47 },
        TableRow { state: ConnectionState::Play, direction: PacketDirection::Client, id: 0x36, name: PacketName::OpenSignEntity_47 },
        TableRow { state: ConnectionState::Play, direction: PacketDirection::Client, id: 0x39, name: PacketName::Abilities_5 },
        TableRow { state: ConnectionState::Play, direction: PacketDirection::Client, id: 0x3b, name: PacketName::ScoreboardObjective_47 },
        TableRow { state: ConnectionState::Play, direction: PacketDirection::Client, id: 0x3c, name: PacketName::ScoreboardScore_47 },
        TableRow { state: ConnectionState::Play, direction: PacketDirection::Client, id: 0x3d, name: PacketName::ScoreboardDisplayObjective_5 },
        TableRow { state: ConnectionState::Play, direction: PacketDirection::Client, id: 0x3f, name: PacketName::CustomPayload_47 },
        TableRow { state: ConnectionState::Play, direction: PacketDirection::Client, id: 0x40, name: PacketName::KickDisconnect_5 },
        TableRow { state: ConnectionState::Play, direction: PacketDirection::Client, id: 0x41, name: PacketName::Difficulty_47 },
        TableRow { state: ConnectionState::Play, direction: PacketDirection::Client, id: 0x42, name: PacketName::CombatEvent_47 },
        TableRow { state: ConnectionState::Play, direction: PacketDirection::Client, id: 0x43, name: PacketName::Camera_47 },
        TableRow { state: ConnectionState::Play, direction: PacketDirection::Client, id: 0x44, name: PacketName::WorldBorder_47 },
        TableRow { state: ConnectionState::Play, direction: PacketDirection::Client, id: 0x45, name: PacketName::Title_47 },
        TableRow { state: ConnectionState::Play, direction: PacketDirection::Client, id: 0x46, name: PacketName::SetCompression_47 },
        TableRow { state: ConnectionState::Play, direction: PacketDirection::Client, id: 0x47, name: PacketName::PlayerlistHeader_47 },
        TableRow { state: ConnectionState::Play, direction: PacketDirection::Client, id: 0x48, name: PacketName::ResourcePackSend_47 },
        TableRow { state: ConnectionState::Play, direction: PacketDirection::Server, id: 0x00, name: PacketName::KeepAlive_47 },
        TableRow { state: ConnectionState::Play, direction: PacketDirection::Server, id: 0x01, name: PacketName::ChatServerbound_5 },
        TableRow { state: ConnectionState::Play, direction: PacketDirection::Server, id: 0x02, name: PacketName::UseEntity_47 },
        TableRow { state: ConnectionState::Play, direction: PacketDirection::Server, id: 0x03, name: PacketName::Flying_5 },
        TableRow { state: ConnectionState::Play, direction: PacketDirection::Server, id: 0x05, name: PacketName::Look_5 },
        TableRow { state: ConnectionState::Play, direction: PacketDirection::Server, id: 0x06, name: PacketName::PositionLook_47 },
        TableRow { state: ConnectionState::Play, direction: PacketDirection::Server, id: 0x07, name: PacketName::BlockDig_47 },
        TableRow { state: ConnectionState::Play, direction: PacketDirection::Server, id: 0x08, name: PacketName::BlockPlace_47 },
        TableRow { state: ConnectionState::Play, direction: PacketDirection::Server, id: 0x09, name: PacketName::HeldItemSlot_5 },
        TableRow { state: ConnectionState::Play, direction: PacketDirection::Server, id: 0x0a, name: PacketName::ArmAnimation_47 },
        TableRow { state: ConnectionState::Play, direction: PacketDirection::Server, id: 0x0b, name: PacketName::EntityAction_47 },
        TableRow { state: ConnectionState::Play, direction: PacketDirection::Server, id: 0x0c, name: PacketName::SteerVehicle_47 },
        TableRow { state: ConnectionState::Play, direction: PacketDirection::Server, id: 0x0d, name: PacketName::CloseWindow_5 },
        TableRow { state: ConnectionState::Play, direction: PacketDirection::Server, id: 0x0e, name: PacketName::WindowClick_47 },
        TableRow { state: ConnectionState::Play, direction: PacketDirection::Server, id: 0x0f, name: PacketName::Transaction_5 },
        TableRow { state: ConnectionState::Play, direction: PacketDirection::Server, id: 0x10, name: PacketName::SetCreativeSlot_5 },
        TableRow { state: ConnectionState::Play, direction: PacketDirection::Server, id: 0x11, name: PacketName::EnchantItem_5 },
        TableRow { state: ConnectionState::Play, direction: PacketDirection::Server, id: 0x12, name: PacketName::UpdateSign_47 },
        TableRow { state: ConnectionState::Play, direction: PacketDirection::Server, id: 0x13, name: PacketName::Abilities_5 },
        TableRow { state: ConnectionState::Play, direction: PacketDirection::Server, id: 0x15, name: PacketName::Settings_47 },
        TableRow { state: ConnectionState::Play, direction: PacketDirection::Server, id: 0x16, name: PacketName::ClientCommand_47 },
        TableRow { state: ConnectionState::Play, direction: PacketDirection::Server, id: 0x17, name: PacketName::CustomPayload_47 },
        TableRow { state: ConnectionState::Play, direction: PacketDirection::Server, id: 0x18, name: PacketName::Spectate_47 },
        TableRow { state: ConnectionState::Play, direction: PacketDirection::Server, id: 0x19, name: PacketName::ResourcePackReceive_47 },
    ];
    assert(r@ =~= rows_1_8());
    r
}

/// The packets of 1.9.2 (protocol 109): state, direction, id and layout of each packet.
pub open spec fn rows_1_9_2() -> Seq<TableRow> {
    seq![
        TableRow { state: ConnectionState::Handshaking, direction: PacketDirection::Server, id: 0x00, name: PacketName::SetProtocol_5 },
        TableRow { state: ConnectionState::Handshaking, direction: PacketDirection::Server, id: 0xfe, name: PacketName::LegacyServerListPing_5 },
        TableRow { state: ConnectionState::Status, direction: PacketDirection::Client, id: 0x00, name: PacketName::ServerInfo_5 },
        TableRow { state: ConnectionState::Status, direction: PacketDirection::Client, id: 0x01, name: PacketName::Ping_5 },
        TableRow { state: ConnectionState::Status, direction: PacketDirection::Server, id: 0x00, name: PacketName::PingStart_5 },
        TableRow { state: ConnectionState::Status, direction: PacketDirection::Server, id: 0x01, name: PacketName::Ping_5 },
        TableRow { state: ConnectionState::Login, direction: PacketDirection::Client, id: 0x00, name: PacketName::Disconnect_5 },
        TableRow { state: ConnectionState::Login, direction: PacketDirection::Client, id: 0x01, name: PacketName::EncryptionBegin_47 },
        TableRow { state: ConnectionState::Login, direction: PacketDirection::Client, id: 0x02, name: PacketName::Success_5 },
        TableRow { state: ConnectionState::Login, direction: PacketDirection::Client, id: 0x03, name: PacketName::Compress_47 },
        TableRow { state: ConnectionState::Login, direction: PacketDirection::Server, id: 0x00, name: PacketName::LoginStart_5 },
        TableRow { state: ConnectionState::Login, direction: PacketDirection::Server, id: 0x01, name: PacketName::EncryptionBeginServerbound_47 },
        TableRow { state: ConnectionState::Play, direction: PacketDirection::Client, id: 0x00, name: PacketName::SpawnEntity_107 },
        TableRow { state: ConnectionState::Play, direction: PacketDirection::Client, id: 0x01, name: PacketName::SpawnEntityExperienceOrb_107 },
        TableRow { state: ConnectionState::Play, direction: PacketDirection::Client, id: 0x02, name: PacketName::SpawnEntityWeather_107 },
        TableRow { state: ConnectionState::Play, direction: PacketDirection::Client, id: 0x03, name: PacketName::SpawnEntityLiving_107 },
        TableRow { state: ConnectionState::Play, direction: PacketDirection::Client, id: 0x04, name: PacketName::SpawnEntityPainting_107 },
        TableRow { state: ConnectionState::Play, direction: PacketDirection::Client, id: 0x05, name: PacketName::NamedEntitySpawn_107 },
        TableRow { state: ConnectionState::Play, direction: PacketDirection::Client, id: 0x06, name: PacketName::Animation_5 },
        TableRow { state: ConnectionState::Play, direction: PacketDirection::Client, id: 0x08, name: PacketName::BlockBreakAnimation_47 },
        TableRow { state: ConnectionState::Play, direction: PacketDirection::Client, id: 0x0a, name: PacketName::BlockAction_47 },
        TableRow { state: ConnectionState::Play, direction: PacketDirection::Client, id: 0x0b, name: PacketName::BlockChange_47 },
        TableRow { state: ConnectionState::Play, direction: PacketDirection::Client, id: 0x0c, name: PacketName::BossBar_107 },
        TableRow { state: ConnectionState::Play, direction: PacketDirection::Client, id: 0x0d, name: PacketName::Difficulty_47 },
        TableRow { state: ConnectionState::Play, direction: PacketDirection::Client, id: 0x0f, name: PacketName::Chat_47 },
        TableRow { state: ConnectionState::Play, direction: PacketDirection::Client, id: 0x10, name: PacketName::MultiBlockChange_47 },
        TableRow { state: ConnectionState::Play, direction: PacketDirection::Client, id: 0x11, name: PacketName::Transaction_47 },
        TableRow { state: ConnectionState::Play, direction: PacketDirection::Client, id: 0x12, name: PacketName::CloseWindow_5 },
        TableRow { state: ConnectionState::Play, direction: PacketDirection::Client, id: 0x15, name: PacketName::CraftProgressBar_5 },
        TableRow { state: ConnectionState::Play, direction: PacketDirection::Client, id: 0x16, name: PacketName::SetSlot_5 },
        TableRow { state: ConnectionState::Play, direction: PacketDirection::Client, id: 0x17, name: PacketName::SetCooldown_107 },
        TableRow { state: ConnectionState::Play, direction: PacketDirection::Client, id: 0x18, name: PacketName::CustomPayload_47 },
        TableRow { state: ConnectionState::Play, direction: PacketDirection::Client, id: 0x19, name: PacketName::NamedSoundEffect_107 },
        TableRow { state: ConnectionState::Play, direction: PacketDirection::Client, id: 0x1a, name: PacketName::KickDisconnect_5 },
        TableRow { state: ConnectionState::Play, direction: PacketDirection::Client, id: 0x1b, name: PacketName::EntityStatus_5 },
        TableRow { state: ConnectionState::Play, direction: PacketDirection::Client, id: 0x1c, name: PacketName::Explosion_5 },
        TableRow { state: ConnectionState::Play, direction: PacketDirection::Client, id: 0x1d, name: PacketName::UnloadChunk_107 },
        TableRow { state: ConnectionState::Play, direction: PacketDirection::Client, id: 0x1e, name: PacketName::GameStateChange_5 },
        TableRow { state: ConnectionState::Play, direction: PacketDirection::Client, id: 0x1f, name: PacketName::KeepAlive_47 },
        TableRow { state: ConnectionState::Play, direction: PacketDirection::Client, id: 0x20, name: PacketName::MapChunk_107 },
        TableRow { state: ConnectionState::Play, direction: PacketDirection::Client, id: 0x21, name: PacketName::WorldEvent_47 },
        TableRow { state: ConnectionState::Play, direction: PacketDirection::Client, id: 0x23, name: PacketName::Login_109 },
        TableRow { state: ConnectionState::Play, direction: PacketDirection::Client, id: 0x25, name: PacketName::RelEntityMove_107 },
        TableRow { state: ConnectionState::Play, direction: PacketDirection::Client, id: 0x26, name: PacketName::EntityMoveLook_107 },
        TableRow { state: ConnectionState::Play, direction: PacketDirection::Client, id: 0x27, name: PacketName::EntityLook_47 },
        TableRow { state: ConnectionState::Play, direction: PacketDirection::Client, id: 0x28, name: PacketName::Entity_47 },
        TableRow { state: ConnectionState::Play, direction: PacketDirection::Client, id: 0x29, name: PacketName::VehicleMove_107 },
        TableRow { state: ConnectionState::Play, direction: PacketDirection::Client, id: 0x2a, name: PacketName::OpenSignEntity_47 },
        TableRow { state: ConnectionState::Play, direction: PacketDirection::Client, id: 0x2b, name: PacketName::Abilities_5 },
        TableRow { state: ConnectionState::Play, direction: PacketDirection::Client, id: 0x2c, name: PacketName::CombatEvent_47 },
        TableRow { state: ConnectionState::Play, direction: PacketDirection::Client, id: 0x2e, name: PacketName::Position_107 },
        TableRow { state: ConnectionState::Play, direction: PacketDirection::Client, id: 0x2f, name: PacketName::Bed_47 },
        TableRow { state: ConnectionState::Play, direction: PacketDirection::Client, id: 0x30, name: PacketName::EntityDestroy_47 },
        TableRow { state: ConnectionState::Play, direction: PacketDirection::Client, id: 0x31, name: PacketName::RemoveEntityEffect_47 },
        TableRow { state: ConnectionState::Play, direction: PacketDirection::Client, id: 0x32, name: PacketName::ResourcePackSend_47 },
        TableRow { state: ConnectionState::Play, direction: PacketDirection::Client, id: 0x33, name: PacketName::Respawn_5 },
        TableRow { state: ConnectionState::Play, direction: PacketDirection::Client, id: 0x34, name: PacketName::EntityHeadRotation_47 },
        TableRow { state: ConnectionState::Play, direction: PacketDirection::Client, id: 0x35, name: PacketName::WorldBorder_47 },
        TableRow { state: ConnectionState::Play, direction: PacketDirection::Client, id: 0x36, name: PacketName::Camera_47 },
        TableRow { state: ConnectionState::Play, direction: PacketDirection::Client, id: 0x37, name: PacketName::HeldItemSlot_5 },
        TableRow { state: ConnectionState::Play, direction: PacketDirection::Client, id: 0x38, name: PacketName::ScoreboardDisplayObjective_5 },
        TableRow { state: ConnectionState::Play, direction: PacketDirection::Client, id: 0x39, name: PacketName::EntityMetadata_47 },
        TableRow { state: ConnectionState::Play, direction: PacketDirection::Client, id: 0x3a, name: PacketName::AttachEntity_107 },
        TableRow { state: ConnectionState::Play, direction: PacketDirection::Client, id: 0x3b, name: PacketName::EntityVelocity_47 },
        TableRow { state: ConnectionState::Play, direction: PacketDirection::Client, id: 0x3c, name: PacketName::EntityEquipment_107 },
        TableRow { state: ConnectionState::Play, direction: PacketDirection::Client, id: 0x3d, name: PacketName::Experience_47 },
        TableRow { state: ConnectionState::Play, direction: PacketDirection::Client, id: 0x3e, name: PacketName::UpdateHealth_47 },
        TableRow { state: ConnectionState::Play, direction: PacketDirection::Client, id: 0x3f, name: PacketName::ScoreboardObjective_47 },
        TableRow { state: ConnectionState::Play, direction: PacketDirection::Client, id: 0x40, name: PacketName::SetPassengers_107 },
        TableRow { state: ConnectionState::Play, direction: PacketDirection::Client, id: 0x42, name: PacketName::ScoreboardScore_47 },
        TableRow { state: ConnectionState::Play, direction: PacketDirection::Client, id: 0x43, name: PacketName::SpawnPosition_47 },
        TableRow { state: ConnectionState::Play, direction: PacketDirection::Client, id: 0x44, name: PacketName::UpdateTime_5 },
        TableRow { state: ConnectionState::Play, direction: PacketDirection::Client, id: 0x45, name: PacketName::Title_47 },
        TableRow { state: ConnectionState::Play, direction: PacketDirection::Client, id: 0x46, name: PacketName::UpdateSign_47 },
        TableRow { state: ConnectionState::Play, direction: PacketDirection::Client, id: 0x47, name: PacketName::SoundEffect_107 },
        TableRow { state: ConnectionState::Play, direction: PacketDirection::Client, id: 0x48, name: PacketName::PlayerlistHeader_47 },
        TableRow { state: ConnectionState::Play, direction: PacketDirection::Client, id: 0x49, name: PacketName::Collect_47 },
        TableRow { state: ConnectionState::Play, direction: PacketDirection::Client, id: 0x4a, name: PacketName::EntityTeleport_107 },
        TableRow { state: ConnectionState::Play, direction: PacketDirection::Client, id: 0x4c, name: PacketName::EntityEffect_107 },
        TableRow { state: ConnectionState::Play, direction: PacketDirection::Server, id: 0x00, name: PacketName::TeleportConfirm_107 },
        TableRow { state: ConnectionState::Play, direction: PacketDirection::Server, id: 0x02, name: PacketName::ChatServerbound_5 },
        TableRow { state: ConnectionState::Play, direction: PacketDirection::Server, id: 0x03, name: PacketName::ClientCommand_107 },
        TableRow { state: ConnectionState::Play, direction: PacketDirection::Server, id: 0x04, name: PacketName::Settings_107 },
        TableRow { state: ConnectionState::Play, direction: PacketDirection::Server, id: 0x05, name: PacketName::Transaction_5 },
        TableRow { state: ConnectionState::Play, direction: PacketDirection::Server, id: 0x06, name: PacketName::EnchantItem_5 },
        TableRow { state: ConnectionState::Play, direction: PacketDirection::Server, id: 0x07, name: PacketName::WindowClick_47 },
        TableRow { state: ConnectionState::Play, direction: PacketDirection::Server, id: 0x08, name: PacketName::CloseWindow_5 },
        TableRow { state: ConnectionState::Play, direction: PacketDirection::Server, id: 0x09, name: PacketName::CustomPayload_47 },
        TableRow { state: ConnectionState::Play, direction: PacketDirection::Server, id: 0x0a, name: PacketName::UseEntity_107 },
        TableRow { state: ConnectionState::Play, direction: PacketDirection::Server, id: 0x0b, name: PacketName::KeepAlive_47 },
        TableRow { state: ConnectionState::Play, direction: PacketDirection::Server, id: 0x0d, name: PacketName::PositionLook_47 },
        TableRow { state: ConnectionState::Play, direction: PacketDirection::Server, id: 0x0e, name: PacketName::Look_5 },
        TableRow { state: ConnectionState::Play, direction: PacketDirection::Server, id: 0x0f, name: PacketName::Flying_5 },
        TableRow { state: ConnectionState::Play, direction: PacketDirection::Server, id: 0x10, name: PacketName::VehicleMove_107 },
        TableRow { state: ConnectionState::Play, direction: PacketDirection::Server, id: 0x11, name: PacketName::SteerBoat_107 },
        TableRow { state: ConnectionState::Play, direction: PacketDirection::Server, id: 0x12, name: PacketName::Abilities_5 },
        TableRow { state: ConnectionState::Play, direction: PacketDirection::Server, id: 0x13, name: PacketName::BlockDig_47 },
        TableRow { state: ConnectionState::Play, direction: PacketDirection::Server, id: 0x14, name: PacketName::EntityAction_47 },
        TableRow { state: ConnectionState::Play, direction: PacketDirection::Server, id: 0x15, name: PacketName::SteerVehicle_47 },
        TableRow { state: ConnectionState::Play, direction: PacketDirection::Server, id: 0x16, name: PacketName::ResourcePackReceive_47 },
        TableRow { state: ConnectionState::Play, direction: PacketDirection::Server, id: 0x17, name: PacketName::HeldItemSlot_5 },
        TableRow { state: ConnectionState::Play, direction: PacketDirection::Server, id: 0x18, name: PacketName::SetCreativeSlot_5 },
        TableRow { state: ConnectionState::Play, direction: PacketDirection::Server, id: 0x19, name: PacketName::UpdateSign_47 },
        TableRow { state: ConnectionState::Play, direction: PacketDirection::Server, id: 0x1a, name: PacketName::ArmAnimation_107 },
        TableRow { state: ConnectionState::Play, direction: PacketDirection::Server, id: 0x1b, name: PacketName::Spectate_47 },
        TableRow { state: ConnectionState::Play, direction: PacketDirection::Server, id: 0x1c, name: PacketName::BlockPlace_107 },
        TableRow { state: ConnectionState::Play, direction: PacketDirection::Server, id: 0x1d, name: PacketName::UseItem_107 },
    ]
}

fn rows_1_9_2_exec() -> (r: Vec<TableRow>)
    ensures
        r@ == rows_1_9_2(),
{
    let r: Vec<TableRow> = vec![
        TableRow { state: ConnectionState::Handshaking, direction: PacketDirection::Server, id: 0x00, name: PacketName::SetProtocol_5 },
        TableRow { state: ConnectionState::Handshaking, direction: PacketDirection::Server, id: 0xfe, name: PacketName::LegacyServerListPing_5 },
        TableRow { state: ConnectionState::Status, direction: PacketDirection::Client, id: 0x00, name: PacketName::ServerInfo_5 },
        TableRow { state: ConnectionState::Status, direction: PacketDirection::Client, id: 0x01, name: PacketName::Ping_5 },
        TableRow { state: ConnectionState::Status, direction: PacketDirection::Server, id: 0x00, name: PacketName::PingStart_5 },
        TableRow { state: ConnectionState::Status, direction: PacketDirection::Server, id: 0x01, name: PacketName::Ping_5 },
        TableRow { state: ConnectionState::Login, direction: PacketDirection::Client, id: 0x00, name: PacketName::Disconnect_5 },
        TableRow { state: ConnectionState::Login, direction: PacketDirection::Client, id: 0x01, name: PacketName::EncryptionBegin_47 },
        TableRow { state: ConnectionState::Login, direction: PacketDirection::Client, id: 0x02, name: PacketName::Success_5 },
        TableRow { state: ConnectionState::Login, direction: PacketDirection::Client, id: 0x03, name: PacketName::Compress_47 },
        TableRow { state: ConnectionState::Login, direction: PacketDirection::Server, id: 0x00, name: PacketName::LoginStart_5 },
        TableRow { state: ConnectionState::Login, direction: PacketDirection::Server, id: 0x01, name: PacketName::EncryptionBeginServerbound_47 },
        TableRow { state: ConnectionState::Play, direction: PacketDirection::Client, id: 0x00, name: PacketName::SpawnEntity_107 },
        TableRow { state: ConnectionState::Play, direction: PacketDirection::Client, id: 0x01, name: PacketName::SpawnEntityExperienceOrb_107 },
        TableRow { state: ConnectionState::Play, direction: PacketDirection::Client, id: 0x02, name: PacketName::SpawnEntityWeather_107 },
        TableRow { state: ConnectionState::Play, direction: PacketDirection::Client, id: 0x03, name: PacketName::SpawnEntityLiving_107 },
        TableRow { state: ConnectionState::Play, direction: PacketDirection::Client, id: 0x04, name: PacketName::SpawnEntityPainting_107 },
        TableRow { state: ConnectionState::Play, direction: PacketDirection::Client, id: 0x05, name: PacketName::NamedEntitySpawn_107 },
        TableRow { state: ConnectionState::Play, direction: PacketDirection::Client, id: 0x06, name: PacketName::Animation_5 },
        TableRow { state: ConnectionState::Play, direction: PacketDirection::Client, id: 0x08, name: PacketName::BlockBreakAnimation_47 },
        TableRow { state: ConnectionState::Play, direction: PacketDirection::Client, id: 0x0a, name: PacketName::BlockAction_47 },
        TableRow { state: ConnectionState::Play, direction: PacketDirection::Client, id: 0x0b, name: PacketName::BlockChange_47 },
        TableRow { state: ConnectionState::Play, direction: PacketDirection::Client, id: 0x0c, name: PacketName::BossBar_107 },
        TableRow { state: ConnectionState::Play, direction: PacketDirection::Client, id: 0x0d, name: PacketName::Difficulty_47 },
        TableRow { state: ConnectionState::Play, direction: PacketDirection::Client, id: 0x0f, name: PacketName::Chat_47 },
        TableRow { state: ConnectionState::Play, direction: PacketDirection::Client, id: 0x10, name: PacketName::MultiBlockChange_47 },
        TableRow { state: ConnectionState::Play, direction: PacketDirection::Client, id: 0x11, name: PacketName::Transaction_47 },
        TableRow { state: ConnectionState::Play, direction: PacketDirection::Client, id: 0x12, name: PacketName::CloseWindow_5 },
        TableRow { state: ConnectionState::Play, direction: PacketDirection::Client, id: 0x15, name: PacketName::CraftProgressBar_5 },
        TableRow { state: ConnectionState::Play, direction: PacketDirection::Client, id: 0x16, name: PacketName::SetSlot_5 },
        TableRow { state: ConnectionState::Play, direction: PacketDirection::Client, id: 0x17, name: PacketName::SetCooldown_107 },
        TableRow { state: ConnectionState::Play, direction: PacketDirection::Client, id: 0x18, name: PacketName::CustomPayload_47 },
        TableRow { state: ConnectionState::Play, direction: PacketDirection::Client, id: 0x19, name: PacketName::NamedSoundEffect_107 },
        TableRow { state: ConnectionState::Play, direction: PacketDirection::Client, id: 0x1a, name: PacketName::KickDisconnect_5 },
        TableRow { state: ConnectionState::Play, direction: PacketDirection::Client, id: 0x1b, name: PacketName::EntityStatus_5 },
        TableRow { state: ConnectionState::Play, direction: PacketDirection::Client, id: 0x1c, name: PacketName::Explosion_5 },
        TableRow { state: ConnectionState::Play, direction: PacketDirection::Client, id: 0x1d, name: PacketName::UnloadChunk_107 },
        TableRow { state: ConnectionState::Play, direction: PacketDirection::Client, id: 0x1e, name: PacketName::GameStateChange_5 },
        TableRow { state: ConnectionState::Play, direction: PacketDirection::Client, id: 0x1f, name: PacketName::KeepAlive_47 },
        TableRow { state: ConnectionState::Play, direction: PacketDirection::Client, id: 0x20, name: PacketName::MapChunk_107 },
        TableRow { state: ConnectionState::Play, direction: PacketDirection::Client, id: 0x21, name: PacketName::WorldEvent_47 },
        TableRow { state: ConnectionState::Play, direction: PacketDirection::Client, id: 0x23, name: PacketName::Login_109 },
        TableRow { state: ConnectionState::Play, direction: PacketDirection::Client, id: 0x25, name: PacketName::RelEntityMove_107 },
        TableRow { state: ConnectionState::Play, direction: PacketDirection::Client, id: 0x26, name: PacketName::EntityMoveLook_107 },
        TableRow { state: ConnectionState::Play, direction: PacketDirection::Client, id: 0x27, name: PacketName::EntityLook_47 },
        TableRow { state: ConnectionState::Play, direction: PacketDirection::Client, id: 0x28, name: PacketName::Entity_47 },
        TableRow { state: ConnectionState::Play, direction: PacketDirection::Client, id: 0x29, name: PacketName::VehicleMove_107 },
        TableRow { state: ConnectionState::Play, direction: PacketDirection::Client, id: 0x2a, name: PacketName::OpenSignEntity_47 },
        TableRow { state: ConnectionState::Play, direction: PacketDirection::Client, id: 0x2b, name: PacketName::Abilities_5 },
        TableRow { state: ConnectionState::Play, direction: PacketDirection::Client, id: 0x2c, name: PacketName::CombatEvent_47 },
        TableRow { state: ConnectionState::Play, direction: PacketDirection::Client, id: 0x2e, name: PacketName::Position_107 },
        TableRow { state: ConnectionState::Play, direction: PacketDirection::Client, id: 0x2f, name: PacketName::Bed_47 },
        TableRow { state: ConnectionState::Play, direction: PacketDirection::Client, id: 0x30, name: PacketName::EntityDestroy_47 },
        TableRow { state: ConnectionState::Play, direction: PacketDirection::Client, id: 0x31, name: PacketName::RemoveEntityEffect_47 },
        TableRow { state: ConnectionState::Play, direction: PacketDirection::Client, id: 0x32, name: PacketName::ResourcePackSend_47 },
        TableRow { state: ConnectionState::Play, direction: PacketDirection::Client, id: 0x33, name: PacketName::Respawn_5 },
        TableRow { state: ConnectionState::Play, direction: PacketDirection::Client, id: 0x34, name: PacketName::EntityHeadRotation_47 },
        TableRow { state: ConnectionState::Play, direction: PacketDirection::Client, id: 0x35, name: PacketName::WorldBorder_47 },
        TableRow { state: ConnectionState::Play, direction: PacketDirection::Client, id: 0x36, name: PacketName::Camera_47 },
        TableRow { state: ConnectionState::Play, direction: PacketDirection::Client, id: 0x37, name: PacketName::HeldItemSlot_5 },
        TableRow { state: ConnectionState::Play, direction: PacketDirection::Client, id: 0x38, name: PacketName::ScoreboardDisplayObjective_5 },
        TableRow { state: ConnectionState::Play, direction: PacketDirection::Client, id: 0x39, name: PacketName::EntityMetadata_47 },
        TableRow { state: ConnectionState::Play, direction: PacketDirection::Client, id: 0x3a, name: PacketName::AttachEntity_107 },
        TableRow { state: ConnectionState::Play, direction: PacketDirection::Client, id: 0x3b, name: PacketName::EntityVelocity_47 },
        TableRow { state: ConnectionState::Play, direction: PacketDirection::Client, id: 0x3c, name: PacketName::EntityEquipment_107 },
        TableRow { state: ConnectionState::Play, direction: PacketDirection::Client, id: 0x3d, name: PacketName::Experience_47 },
        TableRow { state: ConnectionState::Play, direction: PacketDirection::Client, id: 0x3e, name: PacketName::UpdateHealth_47 },
        TableRow { state: ConnectionState::Play, direction: PacketDirection::Client, id: 0x3f, name: PacketName::ScoreboardObjective_47 },
        TableRow { state: ConnectionState::Play, direction: PacketDirection::Client, id: 0x40, name: PacketName::SetPassengers_107 },
        TableRow { state: ConnectionState::Play, direction: PacketDirection::Client, id: 0x42, name: PacketName::ScoreboardScore_47 },
        TableRow { state: ConnectionState::Play, direction: PacketDirection::Client, id: 0x43, name: PacketName::SpawnPosition_47 },
        TableRow { state: ConnectionState::Play, direction: PacketDirection::Client, id: 0x44, name: PacketName::UpdateTime_5 },
        TableRow { state: ConnectionState::Play, direction: PacketDirection::Client, id: 0x45, name: PacketName::Title_47 },
        TableRow { state: ConnectionState::Play, direction: PacketDirection::Client, id: 0x46, name: PacketName::UpdateSign_47 },
        TableRow { state: ConnectionState::Play, direction: PacketDirection::Client, id: 0x47, name: PacketName::SoundEffect_107 },
        TableRow { state: ConnectionState::Play, direction: PacketDirection::Client, id: 0x48, name: PacketName::PlayerlistHeader_47 },
        TableRow { state: ConnectionState::Play, direction: PacketDirection::Client, id: 0x49, name: PacketName::Collect_47 },
        TableRow { state: ConnectionState::Play, direction: PacketDirection::Client, id: 0x4a, name: PacketName::EntityTeleport_107 },
        TableRow { state: ConnectionState::Play, direction: PacketDirection::Client, id: 0x4c, name: PacketName::EntityEffect_107 },
        TableRow { state: ConnectionState::Play, direction: PacketDirection::Server, id: 0x00, name: PacketName::TeleportConfirm_107 },
        TableRow { state: ConnectionState::Play, direction: PacketDirection::Server, id: 0x02, name: PacketName::ChatServerbound_5 },
        TableRow { state: ConnectionState::Play, direction: PacketDirection::Server, id: 0x03, name: PacketName::ClientCommand_107 },
        TableRow { state: ConnectionState::Play, direction: PacketDirection::Server, id: 0x04, name: PacketName::Settings_107 },
        TableRow { state: ConnectionState::Play, direction: PacketDirection::Server, id: 0x05, name: PacketName::Transaction_5 },
        TableRow { state: ConnectionState::Play, direction: PacketDirection::Server, id: 0x06, name: PacketName::EnchantItem_5 },
        TableRow { state: ConnectionState::Play, direction: PacketDirection::Server, id: 0x07, name: PacketName::WindowClick_47 },
        TableRow { state: ConnectionState::Play, direction: PacketDirection::Server, id: 0x08, name: PacketName::CloseWindow_5 },
        TableRow { state: ConnectionState::Play, direction: PacketDirection::Server, id: 0x09, name: PacketName::CustomPayload_47 },
        TableRow { state: ConnectionState::Play, direction: PacketDirection::Server, id: 0x0a, name: PacketName::UseEntity_107 },
        TableRow { state: ConnectionState::Play, direction: PacketDirection::Server, id: 0x0b, name: PacketName::KeepAlive_47 },
        TableRow { state: ConnectionState::Play, direction: PacketDirection::Server, id: 0x0d, name: PacketName::PositionLook_47 },
        TableRow { state: ConnectionState::Play, direction: PacketDirection::Server, id: 0x0e, name: PacketName::Look_5 },
        TableRow { state: ConnectionState::Play, direction: PacketDirection::Server, id: 0x0f, name: PacketName::Flying_5 },
        TableRow { state: ConnectionState::Play, direction: PacketDirection::Server, id: 0x10, name: PacketName::VehicleMove_107 },
        TableRow { state: ConnectionState::Play, direction: PacketDirection::Server, id: 0x11, name: PacketName::SteerBoat_107 },
        TableRow { state: ConnectionState::Play, direction: PacketDirection::Server, id: 0x12, name: PacketName::Abilities_5 },
        TableRow { state: ConnectionState::Play, direction: PacketDirection::Server, id: 0x13, name: PacketName::BlockDig_47 },
        TableRow { state: ConnectionState::Play, direction: PacketDirection::Server, id: 0x14, name: PacketName::EntityAction_47 },
        TableRow { state: ConnectionState::Play, direction: PacketDirection::Server, id: 0x15, name: PacketName::SteerVehicle_47 },
        TableRow { state: ConnectionState::Play, direction: PacketDirection::Server, id: 0x16, name: PacketName::ResourcePackReceive_47 },
        TableRow { state: ConnectionState::Play, direction: PacketDirection::Server, id: 0x17, name: PacketName::HeldItemSlot_5 },
        TableRow { state: ConnectionState::Play, direction: PacketDirection::Server, id: 0x18, name: PacketName::SetCreativeSlot_5 },
        TableRow { state: ConnectionState::Play, direction: PacketDirection::Server, id: 0x19, name: PacketName::UpdateSign_47 },
        TableRow { state: ConnectionState::Play, direction: PacketDirection::Server, id: 0x1a, name: PacketName::ArmAnimation_107 },
        TableRow { state: ConnectionState::Play, direction: PacketDirection::Server, id: 0x1b, name: PacketName::Spectate_47 },
        TableRow { state: ConnectionState::Play, direction: PacketDirection::Server, id: 0x1c, name: PacketName::BlockPlace_107 },
        TableRow { state: ConnectionState::Play, direction: PacketDirection::Server, id: 0x1d, name: PacketName::UseItem_107 },
    ];
    assert(r@ =~= rows_1_9_2());
    r
}

/// The packets of 1.12 (protocol 335): state, direction, id and layout of each packet.
pub open spec fn rows_1_12() -> Seq<TableRow> {
    seq![
        TableRow { state: ConnectionState::Handshaking, direction: PacketDirection::Server, id: 0x00, name: PacketName::SetProtocol_5 },
        TableRow { state: ConnectionState::Handshaking, direction: PacketDirection::Server, id: 0xfe, name: PacketName::LegacyServerListPing_5 },
        TableRow { state: ConnectionState::Status, direction: PacketDirection::Client, id: 0x00, name: PacketName::ServerInfo_5 },
        TableRow { state: ConnectionState::Status, direction: PacketDirection::Client, id: 0x01, name: PacketName::Ping_5 },
        TableRow { state: ConnectionState::Status, direction: PacketDirection::Server, id: 0x00, name: PacketName::PingStart_5 },
        TableRow { state: ConnectionState::Status, direction: PacketDirection::Server, id: 0x01, name: PacketName::Ping_5 },
        TableRow { state: ConnectionState::Login, direction: PacketDirection::Client, id: 0x00, name: PacketName::Disconnect_5 },
        TableRow { state: ConnectionState::Login, direction: PacketDirection::Client, id: 0x01, name: PacketName::EncryptionBegin_47 },
        TableRow { state: ConnectionState::Login, direction: PacketDirection::Client, id: 0x02, name: PacketName::Success_5 },
        TableRow { state: ConnectionState::Login, direction: PacketDirection::Client, id: 0x03, name: PacketName::Compress_47 },
        TableRow { state: ConnectionState::Login, direction: PacketDirection::Server, id: 0x00, name: PacketName::LoginStart_5 },
        TableRow { state: ConnectionState::Login, direction: PacketDirection::Server, id: 0x01, name: PacketName::EncryptionBeginServerbound_47 },
        TableRow { state: ConnectionState::Play, direction: PacketDirection::Client, id: 0x00, name: PacketName::SpawnEntity_107 },
        TableRow { state: ConnectionState::Play, direction: PacketDirection::Client, id: 0x01, name: PacketName::SpawnEntityExperienceOrb_107 },
        TableRow { state: ConnectionState::Play, direction: PacketDirection::Client, id: 0x02, name: PacketName::SpawnEntityWeather_107 },
        TableRow { state: ConnectionState::Play, direction: PacketDirection::Client, id: 0x03, name: PacketName::SpawnEntityLiving_315 },
        TableRow { state: ConnectionState::Play, direction: PacketDirection::Client, id: 0x04, name: PacketName::SpawnEntityPainting_107 },
        TableRow { state: ConnectionState::Play, direction: PacketDirection::Client, id: 0x05, name: PacketName::NamedEntitySpawn_107 },
        TableRow { state: ConnectionState::Play, direction: PacketDirection::Client, id: 0x06, name: PacketName::Animation_5 },
        TableRow { state: ConnectionState::Play, direction: PacketDirection::Client, id: 0x08, name: PacketName::BlockBreakAnimation_47 },
        TableRow { state: ConnectionState::Play, direction: PacketDirection::Client, id: 0x0a, name: PacketName::BlockAction_47 },
        TableRow { state: ConnectionState::Play, direction: PacketDirection::Client, id: 0x0b, name: PacketName::BlockChange_47 },
        TableRow { state: ConnectionState::Play, direction: PacketDirection::Client, id: 0x0c, name: PacketName::BossBar_107 },
        TableRow { state: ConnectionState::Play, direction: PacketDirection::Client, id: 0x0d, name: PacketName::Difficulty_47 },
        TableRow { state: ConnectionState::Play, direction: PacketDirection::Client, id: 0x0f, name: PacketName::Chat_47 },
        TableRow { state: ConnectionState::Play, direction: PacketDirection::Client, id: 0x10, name: PacketName::MultiBlockChange_47 },
        TableRow { state: ConnectionState::Play, direction: PacketDirection::Client, id: 0x11, name: PacketName::Transaction_47 },
        TableRow { state: ConnectionState::Play, direction: PacketDirection::Client, id: 0x12, name: PacketName::CloseWindow_5 },
        TableRow { state: ConnectionState::Play, direction: PacketDirection::Client, id: 0x15, name: PacketName::CraftProgressBar_5 },
        TableRow { state: ConnectionState::Play, direction: PacketDirection::Client, id: 0x16, name: PacketName::SetSlot_5 },
        TableRow { state: ConnectionState::Play, direction: PacketDirection::Client, id: 0x17, name: PacketName::SetCooldown_107 },
        TableRow { state: ConnectionState::Play, direction: PacketDirection::Client, id: 0x18, name: PacketName::CustomPayload_47 },
        TableRow { state: ConnectionState::Play, direction: PacketDirection::Client, id: 0x19, name: PacketName::NamedSoundEffect_210 },
        TableRow { state: ConnectionState::Play, direction: PacketDirection::Client, id: 0x1a, name: PacketName::KickDisconnect_5 },
        TableRow { state: ConnectionState::Play, direction: PacketDirection::Client, id: 0x1b, name: PacketName::EntityStatus_5 },
        TableRow { state: ConnectionState::Play, direction: PacketDirection::Client, id: 0x1c, name: PacketName::Explosion_5 },
        TableRow { state: ConnectionState::Play, direction: PacketDirection::Client, id: 0x1d, name: PacketName::UnloadChunk_107 },
        TableRow { state: ConnectionState::Play, direction: PacketDirection::Client, id: 0x1e, name: PacketName::GameStateChange_5 },
        TableRow { state: ConnectionState::Play, direction: PacketDirection::Client, id: 0x1f, name: PacketName::KeepAlive_47 },
        TableRow { state: ConnectionState::Play, direction: PacketDirection::Client, id: 0x20, name: PacketName::MapChunk_110 },
        TableRow { state: ConnectionState::Play, direction: PacketDirection::Client, id: 0x21, name: PacketName::WorldEvent_47 },
        TableRow { state: ConnectionState::Play, direction: PacketDirection::Client, id: 0x23, name: PacketName::Login_109 },
        TableRow { state: ConnectionState::Play, direction: PacketDirection::Client, id: 0x25, name: PacketName::Entity_47 },
        TableRow { state: ConnectionState::Play, direction: PacketDirection::Client, id: 0x26, name: PacketName::RelEntityMove_107 },
        TableRow { state: ConnectionState::Play, direction: PacketDirection::Client, id: 0x27, name: PacketName::EntityMoveLook_107 },
        TableRow { state: ConnectionState::Play, direction: PacketDirection::Client, id: 0x28, name: PacketName::EntityLook_47 },
        TableRow { state: ConnectionState::Play, direction: PacketDirection::Client, id: 0x29, name: PacketName::VehicleMove_107 },
        TableRow { state: ConnectionState::Play, direction: PacketDirection::Client, id: 0x2a, name: PacketName::OpenSignEntity_47 },
        TableRow { state: ConnectionState::Play, direction: PacketDirection::Client, id: 0x2b, name: PacketName::Abilities_5 },
        TableRow { state: ConnectionState::Play, direction: PacketDirection::Client, id: 0x2c, name: PacketName::CombatEvent_47 },
        TableRow { state: ConnectionState::Play, direction: PacketDirection::Client, id: 0x2e, name: PacketName::Position_107 },
        TableRow { state: ConnectionState::Play, direction: PacketDirection::Client, id: 0x2f, name: PacketName::Bed_47 },
        TableRow { state: ConnectionState::Play, direction: PacketDirection::Client, id: 0x31, name: PacketName::EntityDestroy_47 },
        TableRow { state: ConnectionState::Play, direction: PacketDirection::Client, id: 0x32, name: PacketName::RemoveEntityEffect_47 },
        TableRow { state: ConnectionState::Play, direction: PacketDirection::Client, id: 0x33, name: PacketName::ResourcePackSend_47 },
        TableRow { state: ConnectionState::Play, direction: PacketDirection::Client, id: 0x34, name: PacketName::Respawn_5 },
        TableRow { state: ConnectionState::Play, direction: PacketDirection::Client, id: 0x35, name: PacketName::EntityHeadRotation_47 },
        TableRow { state: ConnectionState::Play, direction: PacketDirection::Client, id: 0x37, name: PacketName::WorldBorder_47 },
        TableRow { state: ConnectionState::Play, direction: PacketDirection::Client, id: 0x38, name: PacketName::Camera_47 },
        TableRow { state: ConnectionState::Play, direction: PacketDirection::Client, id: 0x39, name: PacketName::HeldItemSlot_5 },
        TableRow { state: ConnectionState::Play, direction: PacketDirection::Client, id: 0x3a, name: PacketName::ScoreboardDisplayObjective_5 },
        TableRow { state: ConnectionState::Play, direction: PacketDirection::Client, id: 0x3b, name: PacketName::EntityMetadata_47 },
        TableRow { state: ConnectionState::Play, direction: PacketDirection::Client, id: 0x3c, name: PacketName::AttachEntity_107 },
        TableRow { state: ConnectionState::Play, direction: PacketDirection::Client, id: 0x3d, name: PacketName::EntityVelocity_47 },
        TableRow { state: ConnectionState::Play, direction: PacketDirection::Client, id: 0x3e, name: PacketName::EntityEquipment_107 },
        TableRow { state: ConnectionState::Play, direction: PacketDirection::Client, id: 0x3f, name: PacketName::Experience_47 },
        TableRow { state: ConnectionState::Play, direction: PacketDirection::Client, id: 0x40, name: PacketName::UpdateHealth_47 },
        TableRow { state: ConnectionState::Play, direction: PacketDirection::Client, id: 0x41, name: PacketName::ScoreboardObjective_47 },
        TableRow { state: ConnectionState::Play, direction: PacketDirection::Client, id: 0x42, name: PacketName::SetPassengers_107 },
        TableRow { state: ConnectionState::Play, direction: PacketDirection::Client, id: 0x44, name: PacketName::ScoreboardScore_47 },
        TableRow { state: ConnectionState::Play, direction: PacketDirection::Client, id: 0x45, name: PacketName::SpawnPosition_47 },
        TableRow { state: ConnectionState::Play, direction: PacketDirection::Client, id: 0x46, name: PacketName::UpdateTime_5 },
        TableRow { state: ConnectionState::Play, direction: PacketDirection::Client, id: 0x48, name: PacketName::SoundEffect_210 },
        TableRow { state: ConnectionState::Play, direction: PacketDirection::Client, id: 0x49, name: PacketName::PlayerlistHeader_47 },
        TableRow { state: ConnectionState::Play, direction: PacketDirection::Client, id: 0x4a, name: PacketName::Collect_315 },
        TableRow { state: ConnectionState::Play, direction: PacketDirection::Client, id: 0x4b, name: PacketName::EntityTeleport_107 },
        TableRow { state: ConnectionState::Play, direction: PacketDirection::Client, id: 0x4e, name: PacketName::EntityEffect_107 },
        TableRow { state: ConnectionState::Play, direction: PacketDirection::Server, id: 0x00, name: PacketName::TeleportConfirm_107 },
        TableRow { state: ConnectionState::Play, direction: PacketDirection::Server, id: 0x03, name: PacketName::ChatServerbound_5 },
        TableRow { state: ConnectionState::Play, direction: PacketDirection::Server, id: 0x04, name: PacketName::ClientCommand_107 },
        TableRow { state: ConnectionState::Play, direction: PacketDirection::Server, id: 0x05, name: PacketName::Settings_107 },
        TableRow { state: ConnectionState::Play, direction: PacketDirection::Server, id: 0x06, name: PacketName::Transaction_5 },
        TableRow { state: ConnectionState::Play, direction: PacketDirection::Server, id: 0x07, name: PacketName::EnchantItem_5 },
        TableRow { state: ConnectionState::Play, direction: PacketDirection::Server, id: 0x08, name: PacketName::WindowClick_47 },
        TableRow { state: ConnectionState::Play, direction: PacketDirection::Server, id: 0x09, name: PacketName::CloseWindow_5 },
        TableRow { state: ConnectionState::Play, direction: PacketDirection::Server, id: 0x0a, name: PacketName::CustomPayload_47 },
        TableRow { state: ConnectionState::Play, direction: PacketDirection::Server, id: 0x0b, name: PacketName::UseEntity_107 },
        TableRow { state: ConnectionState::Play, direction: PacketDirection::Server, id: 0x0c, name: PacketName::KeepAlive_47 },
        TableRow { state: ConnectionState::Play, direction: PacketDirection::Server, id: 0x0d, name: PacketName::Flying_5 },
        TableRow { state: ConnectionState::Play, direction: PacketDirection::Server, id: 0x0f, name: PacketName::PositionLook_47 },
        TableRow { state: ConnectionState::Play, direction: PacketDirection::Server, id: 0x10, name: PacketName::Look_5 },
        TableRow { state: ConnectionState::Play, direction: PacketDirection::Server, id: 0x11, name: PacketName::VehicleMove_107 },
        TableRow { state: ConnectionState::Play, direction: PacketDirection::Server, id: 0x12, name: PacketName::SteerBoat_107 },
        TableRow { state: ConnectionState::Play, direction: PacketDirection::Server, id: 0x13, name: PacketName::Abilities_5 },
        TableRow { state: ConnectionState::Play, direction: PacketDirection::Server, id: 0x14, name: PacketName::BlockDig_47 },
        TableRow { state: ConnectionState::Play, direction: PacketDirection::Server, id: 0x15, name: PacketName::EntityAction_47 },
        TableRow { state: ConnectionState::Play, direction: PacketDirection::Server, id: 0x16, name: PacketName::SteerVehicle_47 },
        TableRow { state: ConnectionState::Play, direction: PacketDirection::Server, id: 0x18, name: PacketName::ResourcePackReceive_210 },
        TableRow { state: ConnectionState::Play, direction: PacketDirection::Server, id: 0x19, name: PacketName::AdvancementTab_335 },
        TableRow { state: ConnectionState::Play, direction: PacketDirection::Server, id: 0x1a, name: PacketName::HeldItemSlot_5 },
        TableRow { state: ConnectionState::Play, direction: PacketDirection::Server, id: 0x1b, name: PacketName::SetCreativeSlot_5 },
        TableRow { state: ConnectionState::Play, direction: PacketDirection::Server, id: 0x1c, name: PacketName::UpdateSign_47 },
        TableRow { state: ConnectionState::Play, direction: PacketDirection::Server, id: 0x1d, name: PacketName::ArmAnimation_107 },
        TableRow { state: ConnectionState::Play, direction: PacketDirection::Server, id: 0x1e, name: PacketName::Spectate_47 },
        TableRow { state: ConnectionState::Play, direction: PacketDirection::Server, id: 0x1f, name: PacketName::BlockPlace_315 },
        TableRow { state: ConnectionState::Play, direction: PacketDirection::Server, id: 0x20, name: PacketName::UseItem_107 },
    ]
}

fn rows_1_12_exec() -> (r: Vec<TableRow>)
    ensures
        r@ == rows_1_12(),
{
    let r: Vec<TableRow> = vec![
        TableRow { state: ConnectionState::Handshaking, direction: PacketDirection::Server, id: 0x00, name: PacketName::SetProtocol_5 },
        TableRow { state: ConnectionState::Handshaking, direction: PacketDirection::Server, id: 0xfe, name: PacketName::LegacyServerListPing_5 },
        TableRow { state: ConnectionState::Status, direction: PacketDirection::Client, id: 0x00, name: PacketName::ServerInfo_5 },
        TableRow { state: ConnectionState::Status, direction: PacketDirection::Client, id: 0x01, name: PacketName::Ping_5 },
        TableRow { state: ConnectionState::Status, direction: PacketDirection::Server, id: 0x00, name: PacketName::PingStart_5 },
        TableRow { state: ConnectionState::Status, direction: PacketDirection::Server, id: 0x01, name: PacketName::Ping_5 },
        TableRow { state: ConnectionState::Login, direction: PacketDirection::Client, id: 0x00, name: PacketName::Disconnect_5 },
        TableRow { state: ConnectionState::Login, direction: PacketDirection::Client, id: 0x01, name: PacketName::EncryptionBegin_47 },
        TableRow { state: ConnectionState::Login, direction: PacketDirection::Client, id: 0x02, name: PacketName::Success_5 },
        TableRow { state: ConnectionState::Login, direction: PacketDirection::Client, id: 0x03, name: PacketName::Compress_47 },
        TableRow { state: ConnectionState::Login, direction: PacketDirection::Server, id: 0x00, name: PacketName::LoginStart_5 },
        TableRow { state: ConnectionState::Login, direction: PacketDirection::Server, id: 0x01, name: PacketName::EncryptionBeginServerbound_47 },
        TableRow { state: ConnectionState::Play, direction: PacketDirection::Client, id: 0x00, name: PacketName::SpawnEntity_107 },
        TableRow { state: ConnectionState::Play, direction: PacketDirection::Client, id: 0x01, name: PacketName::SpawnEntityExperienceOrb_107 },
        TableRow { state: ConnectionState::Play, direction: PacketDirection::Client, id: 0x02, name: PacketName::SpawnEntityWeather_107 },
        TableRow { state: ConnectionState::Play, direction: PacketDirection::Client, id: 0x03, name: PacketName::SpawnEntityLiving_315 },
        TableRow { state: ConnectionState::Play, direction: PacketDirection::Client, id: 0x04, name: PacketName::SpawnEntityPainting_107 },
        TableRow { state: ConnectionState::Play, direction: PacketDirection::Client, id: 0x05, name: PacketName::NamedEntitySpawn_107 },
        TableRow { state: ConnectionState::Play, direction: PacketDirection::Client, id: 0x06, name: PacketName::Animation_5 },
        TableRow { state: ConnectionState::Play, direction: PacketDirection::Client, id: 0x08, name: PacketName::BlockBreakAnimation_47 },
        TableRow { state: ConnectionState::Play, direction: PacketDirection::Client, id: 0x0a, name: PacketName::BlockAction_47 },
        TableRow { state: ConnectionState::Play, direction: PacketDirection::Client, id: 0x0b, name: PacketName::BlockChange_47 },
        TableRow { state: ConnectionState::Play, direction: PacketDirection::Client, id: 0x0c, name: PacketName::BossBar_107 },
        TableRow { state: ConnectionState::Play, direction: PacketDirection::Client, id: 0x0d, name: PacketName::Difficulty_47 },
        TableRow { state: ConnectionState::Play, direction: PacketDirection::Client, id: 0x0f, name: PacketName::Chat_47 },
        TableRow { state: ConnectionState::Play, direction: PacketDirection::Client, id: 0x10, name: PacketName::MultiBlockChange_47 },
        TableRow { state: ConnectionState::Play, direction: PacketDirection::Client, id: 0x11, name: PacketName::Transaction_47 },
        TableRow { state: ConnectionState::Play, direction: PacketDirection::Client, id: 0x12, name: PacketName::CloseWindow_5 },
        TableRow { state: ConnectionState::Play, direction: PacketDirection::Client, id: 0x15, name: PacketName::CraftProgressBar_5 },
        TableRow { state: ConnectionState::Play, direction: PacketDirection::Client, id: 0x16, name: PacketName::SetSlot_5 },
        TableRow { state: ConnectionState::Play, direction: PacketDirection::Client, id: 0x17, name: PacketName::SetCooldown_107 },
        TableRow { state: ConnectionState::Play, direction: PacketDirection::Client, id: 0x18, name: PacketName::CustomPayload_47 },
        TableRow { state: ConnectionState::Play, direction: PacketDirection::Client, id: 0x19, name: PacketName::NamedSoundEffect_210 },
        TableRow { state: ConnectionState::Play, direction: PacketDirection::Client, id: 0x1a, name: PacketName::KickDisconnect_5 },
        TableRow { state: ConnectionState::Play, direction: PacketDirection::Client, id: 0x1b, name: PacketName::EntityStatus_5 },
        TableRow { state: ConnectionState::Play, direction: PacketDirection::Client, id: 0x1c, name: PacketName::Explosion_5 },
        TableRow { state: ConnectionState::Play, direction: PacketDirection::Client, id: 0x1d, name: PacketName::UnloadChunk_107 },
        TableRow { state: ConnectionState::Play, direction: PacketDirection::Client, id: 0x1e, name: PacketName::GameStateChange_5 },
        TableRow { state: ConnectionState::Play, direction: PacketDirection::Client, id: 0x1f, name: PacketName::KeepAlive_47 },
        TableRow { state: ConnectionState::Play, direction: PacketDirection::Client, id: 0x20, name: PacketName::MapChunk_110 },
        TableRow { state: ConnectionState::Play, direction: PacketDirection::Client, id: 0x21, name: PacketName::WorldEvent_47 },
        TableRow { state: ConnectionState::Play, direction: PacketDirection::Client, id: 0x23, name: PacketName::Login_109 },
        TableRow { state: ConnectionState::Play, direction: PacketDirection::Client, id: 0x25, name: PacketName::Entity_47 },
        TableRow { state: ConnectionState::Play, direction: PacketDirection::Client, id: 0x26, name: PacketName::RelEntityMove_107 },
        TableRow { state: ConnectionState::Play, direction: PacketDirection::Client, id: 0x27, name: PacketName::EntityMoveLook_107 },
        TableRow { state: ConnectionState::Play, direction: PacketDirection::Client, id: 0x28, name: PacketName::EntityLook_47 },
        TableRow { state: ConnectionState::Play, direction: PacketDirection::Client, id: 0x29, name: PacketName::VehicleMove_107 },
        TableRow { state: ConnectionState::Play, direction: PacketDirection::Client, id: 0x2a, name: PacketName::OpenSignEntity_47 },
        TableRow { state: ConnectionState::Play, direction: PacketDirection::Client, id: 0x2b, name: PacketName::Abilities_5 },
        TableRow { state: ConnectionState::Play, direction: PacketDirection::Client, id: 0x2c, name: PacketName::CombatEvent_47 },
        TableRow { state: ConnectionState::Play, direction: PacketDirection::Client, id: 0x2e, name: PacketName::Position_107 },
        TableRow { state: ConnectionState::Play, direction: PacketDirection::Client, id: 0x2f, name: PacketName::Bed_47 },
        TableRow { state: ConnectionState::Play, direction: PacketDirection::Client, id: 0x31, name: PacketName::EntityDestroy_47 },
        TableRow { state: ConnectionState::Play, direction: PacketDirection::Client, id: 0x32, name: PacketName::RemoveEntityEffect_47 },
        TableRow { state: ConnectionState::Play, direction: PacketDirection::Client, id: 0x33, name: PacketName::ResourcePackSend_47 },
        TableRow { state: ConnectionState::Play, direction: PacketDirection::Client, id: 0x34, name: PacketName::Respawn_5 },
        TableRow { state: ConnectionState::Play, direction: PacketDirection::Client, id: 0x35, name: PacketName::EntityHeadRotation_47 },
        TableRow { state: ConnectionState::Play, direction: PacketDirection::Client, id: 0x37, name: PacketName::WorldBorder_47 },
        TableRow { state: ConnectionState::Play, direction: PacketDirection::Client, id: 0x38, name: PacketName::Camera_47 },
        TableRow { state: ConnectionState::Play, direction: PacketDirection::Client, id: 0x39, name: PacketName::HeldItemSlot_5 },
        TableRow { state: ConnectionState::Play, direction: PacketDirection::Client, id: 0x3a, name: PacketName::ScoreboardDisplayObjective_5 },
        TableRow { state: ConnectionState::Play, direction: PacketDirection::Client, id: 0x3b, name: PacketName::EntityMetadata_47 },
        TableRow { state: ConnectionState::Play, direction: PacketDirection::Client, id: 0x3c, name: PacketName::AttachEntity_107 },
        TableRow { state: ConnectionState::Play, direction: PacketDirection::Client, id: 0x3d, name: PacketName::EntityVelocity_47 },
        TableRow { state: ConnectionState::Play, direction: PacketDirection::Client, id: 0x3e, name: PacketName::EntityEquipment_107 },
        TableRow { state: ConnectionState::Play, direction: PacketDirection::Client, id: 0x3f, name: PacketName::Experience_47 },
        TableRow { state: ConnectionState::Play, direction: PacketDirection::Client, id: 0x40, name: PacketName::UpdateHealth_47 },
        TableRow { state: ConnectionState::Play, direction: PacketDirection::Client, id: 0x41, name: PacketName::ScoreboardObjective_47 },
        TableRow { state: ConnectionState::Play, direction: PacketDirection::Client, id: 0x42, name: PacketName::SetPassengers_107 },
        TableRow { state: ConnectionState::Play, direction: PacketDirection::Client, id: 0x44, name: PacketName::ScoreboardScore_47 },
        TableRow { state: ConnectionState::Play, direction: PacketDirection::Client, id: 0x45, name: PacketName::SpawnPosition_47 },
        TableRow { state: ConnectionState::Play, direction: PacketDirection::Client, id: 0x46, name: PacketName::UpdateTime_5 },
        TableRow { state: ConnectionState::Play, direction: PacketDirection::Client, id: 0x48, name: PacketName::SoundEffect_210 },
        TableRow { state: ConnectionState::Play, direction: PacketDirection::Client, id: 0x49, name: PacketName::PlayerlistHeader_47 },
        TableRow { state: ConnectionState::Play, direction: PacketDirection::Client, id: 0x4a, name: PacketName::Collect_315 },
        TableRow { state: ConnectionState::Play, direction: PacketDirection::Client, id: 0x4b, name: PacketName::EntityTeleport_107 },
        TableRow { state: ConnectionState::Play, direction: PacketDirection::Client, id: 0x4e, name: PacketName::EntityEffect_107 },
        TableRow { state: ConnectionState::Play, direction: PacketDirection::Server, id: 0x00, name: PacketName::TeleportConfirm_107 },
        TableRow { state: ConnectionState::Play, direction: PacketDirection::Server, id: 0x03, name: PacketName::ChatServerbound_5 },
        TableRow { state: ConnectionState::Play, direction: PacketDirection::Server, id: 0x04, name: PacketName::ClientCommand_107 },
        TableRow { state: ConnectionState::Play, direction: PacketDirection::Server, id: 0x05, name: PacketName::Settings_107 },
        TableRow { state: ConnectionState::Play, direction: PacketDirection::Server, id: 0x06, name: PacketName::Transaction_5 },
        TableRow { state: ConnectionState::Play, direction: PacketDirection::Server, id: 0x07, name: PacketName::EnchantItem_5 },
        TableRow { state: ConnectionState::Play, direction: PacketDirection::Server, id: 0x08, name: PacketName::WindowClick_47 },
        TableRow { state: ConnectionState::Play, direction: PacketDirection::Server, id: 0x09, name: PacketName::CloseWindow_5 },
        TableRow { state: ConnectionState::Play, direction: PacketDirection::Server, id: 0x0a, name: PacketName::CustomPayload_47 },
        TableRow { state: ConnectionState::Play, direction: PacketDirection::Server, id: 0x0b, name: PacketName::UseEntity_107 },
        TableRow { state: ConnectionState::Play, direction: PacketDirection::Server, id: 0x0c, name: PacketName::KeepAlive_47 },
        TableRow { state: ConnectionState::Play, direction: PacketDirection::Server, id: 0x0d, name: PacketName::Flying_5 },
        TableRow { state: ConnectionState::Play, direction: PacketDirection::Server, id: 0x0f, name: PacketName::PositionLook_47 },
        TableRow { state: ConnectionState::Play, direction: PacketDirection::Server, id: 0x10, name: PacketName::Look_5 },
        TableRow { state: ConnectionState::Play, direction: PacketDirection::Server, id: 0x11, name: PacketName::VehicleMove_107 },
        TableRow { state: ConnectionState::Play, direction: PacketDirection::Server, id: 0x12, name: PacketName::SteerBoat_107 },
        TableRow { state: ConnectionState::Play, direction: PacketDirection::Server, id: 0x13, name: PacketName::Abilities_5 },
        TableRow { state: ConnectionState::Play, direction: PacketDirection::Server, id: 0x14, name: PacketName::BlockDig_47 },
        TableRow { state: ConnectionState::Play, direction: PacketDirection::Server, id: 0x15, name: PacketName::EntityAction_47 },
        TableRow { state: ConnectionState::Play, direction: PacketDirection::Server, id: 0x16, name: PacketName::SteerVehicle_47 },
        TableRow { state: ConnectionState::Play, direction: PacketDirection::Server, id: 0x18, name: PacketName::ResourcePackReceive_210 },
        TableRow { state: ConnectionState::Play, direction: PacketDirection::Server, id: 0x19, name: PacketName::AdvancementTab_335 },
        TableRow { state: ConnectionState::Play, direction: PacketDirection::Server, id: 0x1a, name: PacketName::HeldItemSlot_5 },
        TableRow { state: ConnectionState::Play, direction: PacketDirection::Server, id: 0x1b, name: PacketName::SetCreativeSlot_5 },
        TableRow { state: ConnectionState::Play, direction: PacketDirection::Server, id: 0x1c, name: PacketName::UpdateSign_47 },
        TableRow { state: ConnectionState::Play, direction: PacketDirection::Server, id: 0x1d, name: PacketName::ArmAnimation_107 },
        TableRow { state: ConnectionState::Play, direction: PacketDirection::Server, id: 0x1e, name: PacketName::Spectate_47 },
        TableRow { state: ConnectionState::Play, direction: PacketDirection::Server, id: 0x1f, name: PacketName::BlockPlace_315 },
        TableRow { state: ConnectionState::Play, direction: PacketDirection::Server, id: 0x20, name: PacketName::UseItem_107 },
    ];
    assert(r@ =~= rows_1_12());
    r
}

/// The packets of 1.12.2 (protocol 340): state, direction, id and layout of each packet.
pub open spec fn rows_1_12_2() -> Seq<TableRow> {
    seq![
        TableRow { state: ConnectionState::Handshaking, direction: PacketDirection::Server, id: 0x00, name: PacketName::SetProtocol_5 },
        TableRow { state: ConnectionState::Handshaking, direction: PacketDirection::Server, id: 0xfe, name: PacketName::LegacyServerListPing_5 },
        TableRow { state: ConnectionState::Status, direction: PacketDirection::Client, id: 0x00, name: PacketName::ServerInfo_5 },
        TableRow { state: ConnectionState::Status, direction: PacketDirection::Client, id: 0x01, name: PacketName::Ping_5 },
        TableRow { state: ConnectionState::Status, direction: PacketDirection::Server, id: 0x00, name: PacketName::PingStart_5 },
        TableRow { state: ConnectionState::Status, direction: PacketDirection::Server, id: 0x01, name: PacketName::Ping_5 },
        TableRow { state: ConnectionState::Login, direction: PacketDirection::Client, id: 0x00, name: PacketName::Disconnect_5 },
        TableRow { state: ConnectionState::Login, direction: PacketDirection::Client, id: 0x01, name: PacketName::EncryptionBegin_47 },
        TableRow { state: ConnectionState::Login, direction: PacketDirection::Client, id: 0x02, name: PacketName::Success_5 },
        TableRow { state: ConnectionState::Login, direction: PacketDirection::Client, id: 0x03, name: PacketName::Compress_47 },
        TableRow { state: ConnectionState::Login, direction: PacketDirection::Server, id: 0x00, name: PacketName::LoginStart_5 },
        TableRow { state: ConnectionState::Login, direction: PacketDirection::Server, id: 0x01, name: PacketName::EncryptionBeginServerbound_47 },
        TableRow { state: ConnectionState::Play, direction: PacketDirection::Client, id: 0x00, name: PacketName::SpawnEntity_107 },
        TableRow { state: ConnectionState::Play, direction: PacketDirection::Client, id: 0x01, name: PacketName::SpawnEntityExperienceOrb_107 },
        TableRow { state: ConnectionState::Play, direction: PacketDirection::Client, id: 0x02, name: PacketName::SpawnEntityWeather_107 },
        TableRow { state: ConnectionState::Play, direction: PacketDirection::Client, id: 0x03, name: PacketName::SpawnEntityLiving_315 },
        TableRow { state: ConnectionState::Play, direction: PacketDirection::Client, id: 0x04, name: PacketName::SpawnEntityPainting_107 },
        TableRow { state: ConnectionState::Play, direction: PacketDirection::Client, id: 0x05, name: PacketName::NamedEntitySpawn_107 },
        TableRow { state: ConnectionState::Play, direction: PacketDirection::Client, id: 0x06, name: PacketName::Animation_5 },
        TableRow { state: ConnectionState::Play, direction: PacketDirection::Client, id: 0x08, name: PacketName::BlockBreakAnimation_47 },
        TableRow { state: ConnectionState::Play, direction: PacketDirection::Client, id: 0x0a, name: PacketName::BlockAction_47 },
        TableRow { state: ConnectionState::Play, direction: PacketDirection::Client, id: 0x0b, name: PacketName::BlockChange_47 },
        TableRow { state: ConnectionState::Play, direction: PacketDirection::Client, id: 0x0c, name: PacketName::BossBar_107 },
        TableRow { state: ConnectionState::Play, direction: PacketDirection::Client, id: 0x0d, name: PacketName::Difficulty_47 },
        TableRow { state: ConnectionState::Play, direction: PacketDirection::Client, id: 0x0f, name: PacketName::Chat_47 },
        TableRow { state: ConnectionState::Play, direction: PacketDirection::Client, id: 0x10, name: PacketName::MultiBlockChange_47 },
        TableRow { state: ConnectionState::Play, direction: PacketDirection::Client, id: 0x11, name: PacketName::Transaction_47 },
        TableRow { state: ConnectionState::Play, direction: PacketDirection::Client, id: 0x12, name: PacketName::CloseWindow_5 },
        TableRow { state: ConnectionState::Play, direction: PacketDirection::Client, id: 0x15, name: PacketName::CraftProgressBar_5 },
        TableRow { state: ConnectionState::Play, direction: PacketDirection::Client, id: 0x16, name: PacketName::SetSlot_5 },
        TableRow { state: ConnectionState::Play, direction: PacketDirection::Client, id: 0x17, name: PacketName::SetCooldown_107 },
        TableRow { state: ConnectionState::Play, direction: PacketDirection::Client, id: 0x18, name: PacketName::CustomPayload_47 },
        TableRow { state: ConnectionState::Play, direction: PacketDirection::Client, id: 0x19, name: PacketName::NamedSoundEffect_210 },
        TableRow { state: ConnectionState::Play, direction: PacketDirection::Client, id: 0x1a, name: PacketName::KickDisconnect_5 },
        TableRow { state: ConnectionState::Play, direction: PacketDirection::Client, id: 0x1b, name: PacketName::EntityStatus_5 },
        TableRow { state: ConnectionState::Play, direction: PacketDirection::Client, id: 0x1c, name: PacketName::Explosion_5 },
        TableRow { state: ConnectionState::Play, direction: PacketDirection::Client, id: 0x1d, name: PacketName::UnloadChunk_107 },
        TableRow { state: ConnectionState::Play, direction: PacketDirection::Client, id: 0x1e, name: PacketName::GameStateChange_5 },
        TableRow { state: ConnectionState::Play, direction: PacketDirection::Client, id: 0x1f, name: PacketName::KeepAlive_340 },
        TableRow { state: ConnectionState::Play, direction: PacketDirection::Client, id: 0x20, name: PacketName::MapChunk_110 },
        TableRow { state: ConnectionState::Play, direction: PacketDirection::Client, id: 0x21, name: PacketName::WorldEvent_47 },
        TableRow { state: ConnectionState::Play, direction: PacketDirection::Client, id: 0x23, name: PacketName::Login_109 },
        TableRow { state: ConnectionState::Play, direction: PacketDirection::Client, id: 0x25, name: PacketName::Entity_47 },
        TableRow { state: ConnectionState::Play, direction: PacketDirection::Client, id: 0x26, name: PacketName::RelEntityMove_107 },
        TableRow { state: ConnectionState::Play, direction: PacketDirection::Client, id: 0x27, name: PacketName::EntityMoveLook_107 },
        TableRow { state: ConnectionState::Play, direction: PacketDirection::Client, id: 0x28, name: PacketName::EntityLook_47 },
        TableRow { state: ConnectionState::Play, direction: PacketDirection::Client, id: 0x29, name: PacketName::VehicleMove_107 },
        TableRow { state: ConnectionState::Play, direction: PacketDirection::Client, id: 0x2a, name: PacketName::OpenSignEntity_47 },
        TableRow { state: ConnectionState::Play, direction: PacketDirection::Client, id: 0x2b, name: PacketName::CraftRecipeResponse_338 },
        TableRow { state: ConnectionState::Play, direction: PacketDirection::Client, id: 0x2c, name: PacketName::Abilities_5 },
        TableRow { state: ConnectionState::Play, direction: PacketDirection::Client, id: 0x2d, name: PacketName::CombatEvent_47 },
        TableRow { state: ConnectionState::Play, direction: PacketDirection::Client, id: 0x2f, name: PacketName::Position_107 },
        TableRow { state: ConnectionState::Play, direction: PacketDirection::Client, id: 0x30, name: PacketName::Bed_47 },
        TableRow { state: ConnectionState::Play, direction: PacketDirection::Client, id: 0x32, name: PacketName::EntityDestroy_47 },
        TableRow { state: ConnectionState::Play, direction: PacketDirection::Client, id: 0x33, name: PacketName::RemoveEntityEffect_47 },
        TableRow { state: ConnectionState::Play, direction: PacketDirection::Client, id: 0x34, name: PacketName::ResourcePackSend_47 },
        TableRow { state: ConnectionState::Play, direction: PacketDirection::Client, id: 0x35, name: PacketName::Respawn_5 },
        TableRow { state: ConnectionState::Play, direction: PacketDirection::Client, id: 0x36, name: PacketName::EntityHeadRotation_47 },
        TableRow { state: ConnectionState::Play, direction: PacketDirection::Client, id: 0x38, name: PacketName::WorldBorder_47 },
        TableRow { state: ConnectionState::Play, direction: PacketDirection::Client, id: 0x39, name: PacketName::Camera_47 },
        TableRow { state: ConnectionState::Play, direction: PacketDirection::Client, id: 0x3a, name: PacketName::HeldItemSlot_5 },
        TableRow { state: ConnectionState::Play, direction: PacketDirection::Client, id: 0x3b, name: PacketName::ScoreboardDisplayObjective_5 },
        TableRow { state: ConnectionState::Play, direction: PacketDirection::Client, id: 0x3c, name: PacketName::EntityMetadata_47 },
        TableRow { state: ConnectionState::Play, direction: PacketDirection::Client, id: 0x3d, name: PacketName::AttachEntity_107 },
        TableRow { state: ConnectionState::Play, direction: PacketDirection::Client, id: 0x3e, name: PacketName::EntityVelocity_47 },
        TableRow { state: ConnectionState::Play, direction: PacketDirection::Client, id: 0x3f, name: PacketName::EntityEquipment_107 },
        TableRow { state: ConnectionState::Play, direction: PacketDirection::Client, id: 0x40, name: PacketName::Experience_47 },
        TableRow { state: ConnectionState::Play, direction: PacketDirection::Client, id: 0x41, name: PacketName::UpdateHealth_47 },
        TableRow { state: ConnectionState::Play, direction: PacketDirection::Client, id: 0x42, name: PacketName::ScoreboardObjective_47 },
        TableRow { state: ConnectionState::Play, direction: PacketDirection::Client, id: 0x43, name: PacketName::SetPassengers_107 },
        TableRow { state: ConnectionState::Play, direction: PacketDirection::Client, id: 0x45, name: PacketName::ScoreboardScore_47 },
        TableRow { state: ConnectionState::Play, direction: PacketDirection::Client, id: 0x46, name: PacketName::SpawnPosition_47 },
        TableRow { state: ConnectionState::Play, direction: PacketDirection::Client, id: 0x47, name: PacketName::UpdateTime_5 },
        TableRow { state: ConnectionState::Play, direction: PacketDirection::Client, id: 0x49, name: PacketName::SoundEffect_210 },
        TableRow { state: ConnectionState::Play, direction: PacketDirection::Client, id: 0x4a, name: PacketName::PlayerlistHeader_47 },
        TableRow { state: ConnectionState::Play, direction: PacketDirection::Client, id: 0x4b, name: PacketName::Collect_315 },
        TableRow { state: ConnectionState::Play, direction: PacketDirection::Client, id: 0x4c, name: PacketName::EntityTeleport_107 },
        TableRow { state: ConnectionState::Play, direction: PacketDirection::Client, id: 0x4f, name: PacketName::EntityEffect_107 },
        TableRow { state: ConnectionState::Play, direction: PacketDirection::Server, id: 0x00, name: PacketName::TeleportConfirm_107 },
        TableRow { state: ConnectionState::Play, direction: PacketDirection::Server, id: 0x02, name: PacketName::ChatServerbound_5 },
        TableRow { state: ConnectionState::Play, direction: PacketDirection::Server, id: 0x03, name: PacketName::ClientCommand_107 },
        TableRow { state: ConnectionState::Play, direction: PacketDirection::Server, id: 0x04, name: PacketName::Settings_107 },
        TableRow { state: ConnectionState::Play, direction: PacketDirection::Server, id: 0x05, name: PacketName::Transaction_5 },
        TableRow { state: ConnectionState::Play, direction: PacketDirection::Server, id: 0x06, name: PacketName::EnchantItem_5 },
        TableRow { state: ConnectionState::Play, direction: PacketDirection::Server, id: 0x07, name: PacketName::WindowClick_47 },
        TableRow { state: ConnectionState::Play, direction: PacketDirection::Server, id: 0x08, name: PacketName::CloseWindow_5 },
        TableRow { state: ConnectionState::Play, direction: PacketDirection::Server, id: 0x09, name: PacketName::CustomPayload_47 },
        TableRow { state: ConnectionState::Play, direction: PacketDirection::Server, id: 0x0a, name: PacketName::UseEntity_107 },
        TableRow { state: ConnectionState::Play, direction: PacketDirection::Server, id: 0x0b, name: PacketName::KeepAlive_340 },
        TableRow { state: ConnectionState::Play, direction: PacketDirection::Server, id: 0x0c, name: PacketName::Flying_5 },
        TableRow { state: ConnectionState::Play, direction: PacketDirection::Server, id: 0x0e, name: PacketName::PositionLook_47 },
        TableRow { state: ConnectionState::Play, direction: PacketDirection::Server, id: 0x0f, name: PacketName::Look_5 },
        TableRow { state: ConnectionState::Play, direction: PacketDirection::Server, id: 0x10, name: PacketName::VehicleMove_107 },
        TableRow { state: ConnectionState::Play, direction: PacketDirection::Server, id: 0x11, name: PacketName::SteerBoat_107 },
        TableRow { state: ConnectionState::Play, direction: PacketDirection::Server, id: 0x12, name: PacketName::CraftRecipeRequest_338 },
        TableRow { state: ConnectionState::Play, direction: PacketDirection::Server, id: 0x13, name: PacketName::Abilities_5 },
        TableRow { state: ConnectionState::Play, direction: PacketDirection::Server, id: 0x14, name: PacketName::BlockDig_47 },
        TableRow { state: ConnectionState::Play, direction: PacketDirection::Server, id: 0x15, name: PacketName::EntityAction_47 },
        TableRow { state: ConnectionState::Play, direction: PacketDirection::Server, id: 0x16, name: PacketName::SteerVehicle_47 },
        TableRow { state: ConnectionState::Play, direction: PacketDirection::Server, id: 0x18, name: PacketName::ResourcePackReceive_210 },
        TableRow { state: ConnectionState::Play, direction: PacketDirection::Server, id: 0x19, name: PacketName::AdvancementTab_335 },
        TableRow { state: ConnectionState::Play, direction: PacketDirection::Server, id: 0x1a, name: PacketName::HeldItemSlot_5 },
        TableRow { state: ConnectionState::Play, direction: PacketDirection::Server, id: 0x1b, name: PacketName::SetCreativeSlot_5 },
        TableRow { state: ConnectionState::Play, direction: PacketDirection::Server, id: 0x1c, name: PacketName::UpdateSign_47 },
        TableRow { state: ConnectionState::Play, direction: PacketDirection::Server, id: 0x1d, name: PacketName::ArmAnimation_107 },
        TableRow { state: ConnectionState::Play, direction: PacketDirection::Server, id: 0x1e, name: PacketName::Spectate_47 },
        TableRow { state: ConnectionState::Play, direction: PacketDirection::Server, id: 0x1f, name: PacketName::BlockPlace_315 },
        TableRow { state: ConnectionState::Play, direction: PacketDirection::Server, id: 0x20, name: PacketName::UseItem_107 },
    ]
}

fn rows_1_12_2_exec() -> (r: Vec<TableRow>)
    ensures
        r@ == rows_1_12_2(),
{
    let r: Vec<TableRow> = vec![
        TableRow { state: ConnectionState::Handshaking, direction: PacketDirection::Server, id: 0x00, name: PacketName::SetProtocol_5 },
        TableRow { state: ConnectionState::Handshaking, direction: PacketDirection::Server, id: 0xfe, name: PacketName::LegacyServerListPing_5 },
        TableRow { state: ConnectionState::Status, direction: PacketDirection::Client, id: 0x00, name: PacketName::ServerInfo_5 },
        TableRow { state: ConnectionState::Status, direction: PacketDirection::Client, id: 0x01, name: PacketName::Ping_5 },
        TableRow { state: ConnectionState::Status, direction: PacketDirection::Server, id: 0x00, name: PacketName::PingStart_5 },
        TableRow { state: ConnectionState::Status, direction: PacketDirection::Server, id: 0x01, name: PacketName::Ping_5 },
        TableRow { state: ConnectionState::Login, direction: PacketDirection::Client, id: 0x00, name: PacketName::Disconnect_5 },
        TableRow { state: ConnectionState::Login, direction: PacketDirection::Client, id: 0x01, name: PacketName::EncryptionBegin_47 },
        TableRow { state: ConnectionState::Login, direction: PacketDirection::Client, id: 0x02, name: PacketName::Success_5 },
        TableRow { state: ConnectionState::Login, direction: PacketDirection::Client, id: 0x03, name: PacketName::Compress_47 },
        TableRow { state: ConnectionState::Login, direction: PacketDirection::Server, id: 0x00, name: PacketName::LoginStart_5 },
        TableRow { state: ConnectionState::Login, direction: PacketDirection::Server, id: 0x01, name: PacketName::EncryptionBeginServerbound_47 },
        TableRow { state: ConnectionState::Play, direction: PacketDirection::Client, id: 0x00, name: PacketName::SpawnEntity_107 },
        TableRow { state: ConnectionState::Play, direction: PacketDirection::Client, id: 0x01, name: PacketName::SpawnEntityExperienceOrb_107 },
        TableRow { state: ConnectionState::Play, direction: PacketDirection::Client, id: 0x02, name: PacketName::SpawnEntityWeather_107 },
        TableRow { state: ConnectionState::Play, direction: PacketDirection::Client, id: 0x03, name: PacketName::SpawnEntityLiving_315 },
        TableRow { state: ConnectionState::Play, direction: PacketDirection::Client, id: 0x04, name: PacketName::SpawnEntityPainting_107 },
        TableRow { state: ConnectionState::Play, direction: PacketDirection::Client, id: 0x05, name: PacketName::NamedEntitySpawn_107 },
        TableRow { state: ConnectionState::Play, direction: PacketDirection::Client, id: 0x06, name: PacketName::Animation_5 },
        TableRow { state: ConnectionState::Play, direction: PacketDirection::Client, id: 0x08, name: PacketName::BlockBreakAnimation_47 },
        TableRow { state: ConnectionState::Play, direction: PacketDirection::Client, id: 0x0a, name: PacketName::BlockAction_47 },
        TableRow { state: ConnectionState::Play, direction: PacketDirection::Client, id: 0x0b, name: PacketName::BlockChange_47 },
        TableRow { state: ConnectionState::Play, direction: PacketDirection::Client, id: 0x0c, name: PacketName::BossBar_107 },
        TableRow { state: ConnectionState::Play, direction: PacketDirection::Client, id: 0x0d, name: PacketName::Difficulty_47 },
        TableRow { state: ConnectionState::Play, direction: PacketDirection::Client, id: 0x0f, name: PacketName::Chat_47 },
        TableRow { state: ConnectionState::Play, direction: PacketDirection::Client, id: 0x10, name: PacketName::MultiBlockChange_47 },
        TableRow { state: ConnectionState::Play, direction: PacketDirection::Client, id: 0x11, name: PacketName::Transaction_47 },
        TableRow { state: ConnectionState::Play, direction: PacketDirection::Client, id: 0x12, name: PacketName::CloseWindow_5 },
        TableRow { state: ConnectionState::Play, direction: PacketDirection::Client, id: 0x15, name: PacketName::CraftProgressBar_5 },
        TableRow { state: ConnectionState::Play, direction: PacketDirection::Client, id: 0x16, name: PacketName::SetSlot_5 },
        TableRow { state: ConnectionState::Play, direction: PacketDirection::Client, id: 0x17, name: PacketName::SetCooldown_107 },
        TableRow { state: ConnectionState::Play, direction: PacketDirection::Client, id: 0x18, name: PacketName::CustomPayload_47 },
        TableRow { state: ConnectionState::Play, direction: PacketDirection::Client, id: 0x19, name: PacketName::NamedSoundEffect_210 },
        TableRow { state: ConnectionState::Play, direction: PacketDirection::Client, id: 0x1a, name: PacketName::KickDisconnect_5 },
        TableRow { state: ConnectionState::Play, direction: PacketDirection::Client, id: 0x1b, name: PacketName::EntityStatus_5 },
        TableRow { state: ConnectionState::Play, direction: PacketDirection::Client, id: 0x1c, name: PacketName::Explosion_5 },
        TableRow { state: ConnectionState::Play, direction: PacketDirection::Client, id: 0x1d, name: PacketName::UnloadChunk_107 },
        TableRow { state: ConnectionState::Play, direction: PacketDirection::Client, id: 0x1e, name: PacketName::GameStateChange_5 },
        TableRow { state: ConnectionState::Play, direction: PacketDirection::Client, id: 0x1f, name: PacketName::KeepAlive_340 },
        TableRow { state: ConnectionState::Play, direction: PacketDirection::Client, id: 0x20, name: PacketName::MapChunk_110 },
        TableRow { state: ConnectionState::Play, direction: PacketDirection::Client, id: 0x21, name: PacketName::WorldEvent_47 },
        TableRow { state: ConnectionState::Play, direction: PacketDirection::Client, id: 0x23, name: PacketName::Login_109 },
        TableRow { state: ConnectionState::Play, direction: PacketDirection::Client, id: 0x25, name: PacketName::Entity_47 },
        TableRow { state: ConnectionState::Play, direction: PacketDirection::Client, id: 0x26, name: PacketName::RelEntityMove_107 },
        TableRow { state: ConnectionState::Play, direction: PacketDirection::Client, id: 0x27, name: PacketName::EntityMoveLook_107 },
        TableRow { state: ConnectionState::Play, direction: PacketDirection::Client, id: 0x28, name: PacketName::EntityLook_47 },
        TableRow { state: ConnectionState::Play, direction: PacketDirection::Client, id: 0x29, name: PacketName::VehicleMove_107 },
        TableRow { state: ConnectionState::Play, direction: PacketDirection::Client, id: 0x2a, name: PacketName::OpenSignEntity_47 },
        TableRow { state: ConnectionState::Play, direction: PacketDirection::Client, id: 0x2b, name: PacketName::CraftRecipeResponse_338 },
        TableRow { state: ConnectionState::Play, direction: PacketDirection::Client, id: 0x2c, name: PacketName::Abilities_5 },
        TableRow { state: ConnectionState::Play, direction: PacketDirection::Client, id: 0x2d, name: PacketName::CombatEvent_47 },
        TableRow { state: ConnectionState::Play, direction: PacketDirection::Client, id: 0x2f, name: PacketName::Position_107 },
        TableRow { state: ConnectionState::Play, direction: PacketDirection::Client, id: 0x30, name: PacketName::Bed_47 },
        TableRow { state: ConnectionState::Play, direction: PacketDirection::Client, id: 0x32, name: PacketName::EntityDestroy_47 },
        TableRow { state: ConnectionState::Play, direction: PacketDirection::Client, id: 0x33, name: PacketName::RemoveEntityEffect_47 },
        TableRow { state: ConnectionState::Play, direction: PacketDirection::Client, id: 0x34, name: PacketName::ResourcePackSend_47 },
        TableRow { state: ConnectionState::Play, direction: PacketDirection::Client, id: 0x35, name: PacketName::Respawn_5 },
        TableRow { state: ConnectionState::Play, direction: PacketDirection::Client, id: 0x36, name: PacketName::EntityHeadRotation_47 },
        TableRow { state: ConnectionState::Play, direction: PacketDirection::Client, id: 0x38, name: PacketName::WorldBorder_47 },
        TableRow { state: ConnectionState::Play, direction: PacketDirection::Client, id: 0x39, name: PacketName::Camera_47 },
        TableRow { state: ConnectionState::Play, direction: PacketDirection::Client, id: 0x3a, name: PacketName::HeldItemSlot_5 },
        TableRow { state: ConnectionState::Play, direction: PacketDirection::Client, id: 0x3b, name: PacketName::ScoreboardDisplayObjective_5 },
        TableRow { state: ConnectionState::Play, direction: PacketDirection::Client, id: 0x3c, name: PacketName::EntityMetadata_47 },
        TableRow { state: ConnectionState::Play, direction: PacketDirection::Client, id: 0x3d, name: PacketName::AttachEntity_107 },
        TableRow { state: ConnectionState::Play, direction: PacketDirection::Client, id: 0x3e, name: PacketName::EntityVelocity_47 },
        TableRow { state: ConnectionState::Play, direction: PacketDirection::Client, id: 0x3f, name: PacketName::EntityEquipment_107 },
        TableRow { state: ConnectionState::Play, direction: PacketDirection::Client, id: 0x40, name: PacketName::Experience_47 },
        TableRow { state: ConnectionState::Play, direction: PacketDirection::Client, id: 0x41, name: PacketName::UpdateHealth_47 },
        TableRow { state: ConnectionState::Play, direction: PacketDirection::Client, id: 0x42, name: PacketName::ScoreboardObjective_47 },
        TableRow { state: ConnectionState::Play, direction: PacketDirection::Client, id: 0x43, name: PacketName::SetPassengers_107 },
        TableRow { state: ConnectionState::Play, direction: PacketDirection::Client, id: 0x45, name: PacketName::ScoreboardScore_47 },
        TableRow { state: ConnectionState::Play, direction: PacketDirection::Client, id: 0x46, name: PacketName::SpawnPosition_47 },
        TableRow { state: ConnectionState::Play, direction: PacketDirection::Client, id: 0x47, name: PacketName::UpdateTime_5 },
        TableRow { state: ConnectionState::Play, direction: PacketDirection::Client, id: 0x49, name: PacketName::SoundEffect_210 },
        TableRow { state: ConnectionState::Play, direction: PacketDirection::Client, id: 0x4a, name: PacketName::PlayerlistHeader_47 },
        TableRow { state: ConnectionState::Play, direction: PacketDirection::Client, id: 0x4b, name: PacketName::Collect_315 },
        TableRow { state: ConnectionState::Play, direction: PacketDirection::Client, id: 0x4c, name: PacketName::EntityTeleport_107 },
        TableRow { state: ConnectionState::Play, direction: PacketDirection::Client, id: 0x4f, name: PacketName::EntityEffect_107 },
        TableRow { state: ConnectionState::Play, direction: PacketDirection::Server, id: 0x00, name: PacketName::TeleportConfirm_107 },
        TableRow { state: ConnectionState::Play, direction: PacketDirection::Server, id: 0x02, name: PacketName::ChatServerbound_5 },
        TableRow { state: ConnectionState::Play, direction: PacketDirection::Server, id: 0x03, name: PacketName::ClientCommand_107 },
        TableRow { state: ConnectionState::Play, direction: PacketDirection::Server, id: 0x04, name: PacketName::Settings_107 },
        TableRow { state: ConnectionState::Play, direction: PacketDirection::Server, id: 0x05, name: PacketName::Transaction_5 },
        TableRow { state: ConnectionState::Play, direction: PacketDirection::Server, id: 0x06, name: PacketName::EnchantItem_5 },
        TableRow { state: ConnectionState::Play, direction: PacketDirection::Server, id: 0x07, name: PacketName::WindowClick_47 },
        TableRow { state: ConnectionState::Play, direction: PacketDirection::Server, id: 0x08, name: PacketName::CloseWindow_5 },
        TableRow { state: ConnectionState::Play, direction: PacketDirection::Server, id: 0x09, name: PacketName::CustomPayload_47 },
        TableRow { state: ConnectionState::Play, direction: PacketDirection::Server, id: 0x0a, name: PacketName::UseEntity_107 },
        TableRow { state: ConnectionState::Play, direction: PacketDirection::Server, id: 0x0b, name: PacketName::KeepAlive_340 },
        TableRow { state: ConnectionState::Play, direction: PacketDirection::Server, id: 0x0c, name: PacketName::Flying_5 },
        TableRow { state: ConnectionState::Play, direction: PacketDirection::Server, id: 0x0e, name: PacketName::PositionLook_47 },
        TableRow { state: ConnectionState::Play, direction: PacketDirection::Server, id: 0x0f, name: PacketName::Look_5 },
        TableRow { state: ConnectionState::Play, direction: PacketDirection::Server, id: 0x10, name: PacketName::VehicleMove_107 },
        TableRow { state: ConnectionState::Play, direction: PacketDirection::Server, id: 0x11, name: PacketName::SteerBoat_107 },
        TableRow { state: ConnectionState::Play, direction: PacketDirection::Server, id: 0x12, name: PacketName::CraftRecipeRequest_338 },
        TableRow { state: ConnectionState::Play, direction: PacketDirection::Server, id: 0x13, name: PacketName::Abilities_5 },
        TableRow { state: ConnectionState::Play, direction: PacketDirection::Server, id: 0x14, name: PacketName::BlockDig_47 },
        TableRow { state: ConnectionState::Play, direction: PacketDirection::Server, id: 0x15, name: PacketName::EntityAction_47 },
        TableRow { state: ConnectionState::Play, direction: PacketDirection::Server, id: 0x16, name: PacketName::SteerVehicle_47 },
        TableRow { state: ConnectionState::Play, direction: PacketDirection::Server, id: 0x18, name: PacketName::ResourcePackReceive_210 },
        TableRow { state: ConnectionState::Play, direction: PacketDirection::Server, id: 0x19, name: PacketName::AdvancementTab_335 },
        TableRow { state: ConnectionState::Play, direction: PacketDirection::Server, id: 0x1a, name: PacketName::HeldItemSlot_5 },
        TableRow { state: ConnectionState::Play, direction: PacketDirection::Server, id: 0x1b, name: PacketName::SetCreativeSlot_5 },
        TableRow { state: ConnectionState::Play, direction: PacketDirection::Server, id: 0x1c, name: PacketName::UpdateSign_47 },
        TableRow { state: ConnectionState::Play, direction: PacketDirection::Server, id: 0x1d, name: PacketName::ArmAnimation_107 },
        TableRow { state: ConnectionState::Play, direction: PacketDirection::Server, id: 0x1e, name: PacketName::Spectate_47 },
        TableRow { state: ConnectionState::Play, direction: PacketDirection::Server, id: 0x1f, name: PacketName::BlockPlace_315 },
        TableRow { state: ConnectionState::Play, direction: PacketDirection::Server, id: 0x20, name: PacketName::UseItem_107 },
    ];
    assert(r@ =~= rows_1_12_2());
    r
}

/// The rows of the table this client has for `v`, if it has one.
pub open spec fn table_rows(v: ProtocolVersion) -> Option<Seq<TableRow>> {
    match v {
        ProtocolVersion::Proto1_7_6 => Some(rows_1_7_6()),
        ProtocolVersion::Proto1_8 => Some(rows_1_8()),
        ProtocolVersion::Proto1_9_2 => Some(rows_1_9_2()),
        ProtocolVersion::Proto1_12 => Some(rows_1_12()),
        ProtocolVersion::Proto1_12_2 => Some(rows_1_12_2()),
        _ => None,
    }
}

/// `t` is the table with these rows for `protocol`, each entry with the
/// layout its name gives.
pub open spec fn table_matches(t: VersionTable, protocol: i32, rows: Seq<TableRow>) -> bool {
    &&& t.protocol == protocol
    &&& t.packets@.len() == rows.len()
    &&& forall|i: int|
        0 <= i < rows.len() ==> {
            &&& (#[trigger] t.packets@[i]).state == rows[i].state
            &&& t.packets@[i].direction == rows[i].direction
            &&& t.packets@[i].id == rows[i].id
            &&& t.packets@[i].name == rows[i].name
            &&& t.packets@[i].fields@ == layout_spec(rows[i].name)
        }
}

/// `t` is this client's table for `v`.
pub open spec fn is_table_of(t: VersionTable, v: ProtocolVersion) -> bool {
    match table_rows(v) {
        Some(rows) => table_matches(t, protocol_number(v), rows),
        None => false,
    }
}

fn build_table(protocol: i32, rows: Vec<TableRow>) -> (r: VersionTable)
    ensures
        table_matches(r, protocol, rows@),
{
    let mut packets: Vec<PacketSchema> = Vec::new();
    let mut i: usize = 0;
    while i < rows.len()
        invariant
            i <= rows@.len(),
            packets@.len() == i,
            forall|j: int|
                0 <= j < i ==> {
                    &&& (#[trigger] packets@[j]).state == rows@[j].state
                    &&& packets@[j].direction == rows@[j].direction
                    &&& packets@[j].id == rows@[j].id
                    &&& packets@[j].name == rows@[j].name
                    &&& packets@[j].fields@ == layout_spec(rows@[j].name)
                },
        decreases rows@.len() - i,
    {
        let row = rows[i];
        packets.push(PacketSchema { name: row.name, state: row.state, direction: row.direction, id: row.id, fields: layout(row.name) });
        i = i + 1;
    }
    VersionTable { protocol, packets }
}

impl VersionTable {
    /// The table of `version`, when this client has one.
    pub fn for_protocol(version: ProtocolVersion) -> (r: Option<VersionTable>)
        ensures
            r is Some <==> has_table(version),
            r matches Some(t) ==> is_table_of(t, version),
    {
        match version {
            ProtocolVersion::Proto1_7_6 => Some(build_table(PROTO_1_7_6, rows_1_7_6_exec())),
            ProtocolVersion::Proto1_8 => Some(build_table(PROTO_1_8, rows_1_8_exec())),
            ProtocolVersion::Proto1_9_2 => Some(build_table(PROTO_1_9_2, rows_1_9_2_exec())),
            ProtocolVersion::Proto1_12 => Some(build_table(PROTO_1_12, rows_1_12_exec())),
            ProtocolVersion::Proto1_12_2 => Some(build_table(PROTO_1_12_2, rows_1_12_2_exec())),
            _ => None,
        }
    }
}

impl Registry {
    /// The tables of every version this client carries.
    pub fn standard() -> (r: Registry)
        ensures
            r.tables@.len() == 5,
            is_table_of(r.tables@[0], ProtocolVersion::Proto1_7_6),
            is_table_of(r.tables@[1], ProtocolVersion::Proto1_8),
            is_table_of(r.tables@[2], ProtocolVersion::Proto1_9_2),
            is_table_of(r.tables@[3], ProtocolVersion::Proto1_12),
            is_table_of(r.tables@[4], ProtocolVersion::Proto1_12_2),
    {
        let mut tables: Vec<VersionTable> = Vec::new();
        tables.push(build_table(PROTO_1_7_6, rows_1_7_6_exec()));
        tables.push(build_table(PROTO_1_8, rows_1_8_exec()));
        tables.push(build_table(PROTO_1_9_2, rows_1_9_2_exec()));
        tables.push(build_table(PROTO_1_12, rows_1_12_exec()));
        tables.push(build_table(PROTO_1_12_2, rows_1_12_2_exec()));
        Registry { tables }
    }

    /// The table for `protocol`: the first one registered for that number.
    pub fn table(&self, protocol: i32) -> (r: Option<&VersionTable>)
        ensures
            match find_table(self.tables@, protocol, 0) {
                Some(k) => r == Some(&self.tables@[k]),
                None => r is None,
            },
    {
        let mut k: usize = 0;
        while k < self.tables.len()
            invariant
                k <= self.tables@.len(),
                find_table(self.tables@, protocol, 0) == find_table(self.tables@, protocol, k as int),
            decreases self.tables@.len() - k,
        {
            if self.tables[k].protocol == protocol {
                return Some(&self.tables[k]);
            }
            k = k + 1;
        }
        None
    }
}

/// Decodes a raw packet with the table of the active version: looks up its
/// id in the current state and direction, then reads the payload with that
/// entry's layout. Gives the packet and the number of payload bytes read;
/// fewer than the payload holds means trailing bytes.
pub fn decode_packet(table: &VersionTable, p: &RawPacket, state: ConnectionState, dir: PacketDirection) -> (r: Result<(Packet, usize), DecodeError>)
    ensures
        match find_by_id(table.packets@, state, dir, p.id, 0) {
            None => r == Err::<(Packet, usize), DecodeError>(DecodeError::Unmapped { id: p.id, state, direction: dir }),
            Some(k) => match payload_read(table.packets@[k].fields@, p.data@, table.protocol) {
                Ok((vals, used)) => r matches Ok((pk, u)) && pk.name == table.packets@[k].name && views(pk.values@) == vals && u == used,
                Err(e) => r == Err::<(Packet, usize), DecodeError>(e),
            },
        },
{
    let mut k: usize = 0;
    while k < table.packets.len()
        invariant
            k <= table.packets@.len(),
            find_by_id(table.packets@, state, dir, p.id, 0) == find_by_id(table.packets@, state, dir, p.id, k as int),
        decreases table.packets@.len() - k,
    {
        let e = &table.packets[k];
        if e.state == state && e.direction == dir && e.id == p.id {
            let (values, used) = read_payload(&e.fields, p.data.as_slice(), table.protocol)?;
            return Ok((Packet { name: e.name, values }, used));
        }
        k = k + 1;
    }
    Err(DecodeError::Unmapped { id: p.id, state, direction: dir })
}

/// Encodes a packet with the table of the active version: finds the entry
/// with the packet's name in the current state and direction, then writes
/// the values with its layout under its id.
pub fn encode_packet(table: &VersionTable, p: &Packet, state: ConnectionState, dir: PacketDirection) -> (r: Result<RawPacket, EncodeError>)
    ensures
        !values_fit(views(p.values@)) ==> r == Err::<RawPacket, EncodeError>(EncodeError::Unencodable),
        values_fit(views(p.values@)) ==> match find_by_name(table.packets@, state, dir, p.name, 0) {
            None => r == Err::<RawPacket, EncodeError>(EncodeError::NotInTable { protocol: table.protocol, state, direction: dir }),
            Some(k) => r matches Ok(raw) && raw.id == table.packets@[k].id && raw.data@ == payload_wire(
                table.packets@[k].fields@,
                views(p.values@),
                table.protocol,
            ),
        },
{
    if !check_values_fit(&p.values) {
        return Err(EncodeError::Unencodable);
    }
    let mut k: usize = 0;
    while k < table.packets.len()
        invariant
            k <= table.packets@.len(),
            values_fit(views(p.values@)),
            find_by_name(table.packets@, state, dir, p.name, 0) == find_by_name(table.packets@, state, dir, p.name, k as int),
        decreases table.packets@.len() - k,
    {
        let e = &table.packets[k];
        if e.state == state && e.direction == dir && e.name == p.name {
            let data = write_payload(&e.fields, &p.values, table.protocol);
            return Ok(RawPacket { id: e.id, data });
        }
        k = k + 1;
    }
    Err(EncodeError::NotInTable { protocol: table.protocol, state, direction: dir })
}

} // verus!

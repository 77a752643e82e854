use vstd::prelude::*;

use crate::codec::{frame_wire, MinecraftCodec, RawPacket};
use crate::error::{DecodeError, EncodeError};
use crate::schema::{payload_read, payload_wire, values_fit, views, ValueView};
use crate::state::{ConnectionState, PacketDirection};
use crate::versions::{
    decode_packet, encode_packet, find_by_id, find_by_name, has_table, is_table_of, protocol_number, rows_1_12, rows_1_12_2, rows_1_7_6, rows_1_8, rows_1_9_2, table_rows, PacketName,
    ProtocolVersion, VersionTable,
};
use crate::wrapper::{encode_failure, handshake_target, has_event, incoming, outgoing, AbstractPacket};

verus! {

/// Why a connection cannot go on, or why a send failed.
#[derive(Debug, Clone, Copy, PartialEq, Eq, Structural)]
pub enum ConnectionError {
    /// A packet outside the play state could not be decoded.
    Decode(DecodeError),
    /// A packet outside the play state has no version-independent form.
    Untranslatable { id: i32 },
    /// An outgoing event has no encoding in the active version and state.
    Encode(EncodeError),
    /// The peer asked for compression or encryption, which this client
    /// does not speak.
    Unsupported,
    /// An outgoing payload is too long for one frame.
    TooLarge,
}

/// The state after `ap` is seen, sent or received: a handshake in the
/// handshaking state moves to the status or login state it names, a login
/// success to play; anything else keeps the state.
pub open spec fn next_state(state: ConnectionState, ap: AbstractPacket) -> ConnectionState {
    match ap {
        AbstractPacket::SetProtocol { next_state, .. } => if state == ConnectionState::Handshaking
            && handshake_target(next_state) {
            next_state
        } else {
            state
        },
        AbstractPacket::LoginSuccess { .. } => ConnectionState::Play,
        _ => state,
    }
}

/// Whether `ap` asks for something this client does not speak.
pub open spec fn unsupported(ap: AbstractPacket) -> bool {
    ap is SetCompression || ap is EncryptionBeginClientbound
}

/// Applies the transition rules for one observed event.
pub fn transition(state: ConnectionState, ap: &AbstractPacket) -> (r: ConnectionState)
    ensures
        r == next_state(state, *ap),
{
    match ap {
        AbstractPacket::SetProtocol { next_state, .. } => {
            if state == ConnectionState::Handshaking && (*next_state == ConnectionState::Status
                || *next_state == ConnectionState::Login) {
                *next_state
            } else {
                state
            }
        },
        AbstractPacket::LoginSuccess { .. } => ConnectionState::Play,
        _ => state,
    }
}

/// What decoding `raw` in `state` gives with `table`: the packet's name and
/// values, or the error.
pub open spec fn decoded(table: VersionTable, raw: RawPacket, state: ConnectionState) -> Result<(PacketName, Seq<ValueView>), DecodeError> {
    match find_by_id(table.packets@, state, PacketDirection::Client, raw.id, 0) {
        None => Err(DecodeError::Unmapped { id: raw.id, state, direction: PacketDirection::Client }),
        Some(k) => match payload_read(table.packets@[k].fields@, raw.data@, table.protocol) {
            Ok((vals, _)) => Ok((table.packets@[k].name, vals)),
            Err(e) => Err(e),
        },
    }
}

/// One client connection's protocol logic: the version fixed at the start,
/// its packet table, and the current state. Socket reads and writes, and the
/// queues between them, belong to the caller.
pub struct ClientConnection {
    protocol: ProtocolVersion,
    state: ConnectionState,
    table: VersionTable,
}

impl ClientConnection {
    pub closed spec fn table_view(&self) -> VersionTable {
        self.table
    }

    pub closed spec fn protocol_view(&self) -> ProtocolVersion {
        self.protocol
    }

    pub closed spec fn state_view(&self) -> ConnectionState {
        self.state
    }

    /// The current protocol phase, for diagnostics.
    pub fn state(&self) -> (r: ConnectionState)
        ensures
            r == self.state_view(),
    {
        self.state
    }

    /// The version fixed when the connection started.
    pub fn protocol(&self) -> (r: ProtocolVersion)
        ensures
            r == self.protocol_view(),
    {
        self.protocol
    }

    /// A connection in the handshaking state, when `protocol` has a table.
    pub fn new(protocol: ProtocolVersion) -> (r: Option<ClientConnection>)
        ensures
            r is Some <==> has_table(protocol),
            r matches Some(c) ==> is_table_of(c.table_view(), protocol),
            r matches Some(c) ==> c.protocol_view() == protocol && c.state_view() == ConnectionState::Handshaking
                && c.table_view().protocol == protocol_number(protocol),
    {
        let table = VersionTable::for_protocol(protocol)?;
        Some(ClientConnection { protocol, state: ConnectionState::Handshaking, table })
    }

    /// Handles one received packet. A packet that cannot be decoded or has
    /// no version-independent form is dropped in the play state (`Ok(None)`)
    /// and fatal in any other (`Err`). A normalized event updates the state.
    pub fn read(&mut self, raw: &RawPacket) -> (r: Result<Option<AbstractPacket>, ConnectionError>)
        ensures
            final(self).protocol_view() == old(self).protocol_view(),
            final(self).table_view() == old(self).table_view(),
            match decoded(old(self).table_view(), *raw, old(self).state_view()) {
                Err(e) => final(self).state_view() == old(self).state_view() && if old(self).state_view() == ConnectionState::Play {
                    r matches Ok(None)
                } else {
                    r == Err::<Option<AbstractPacket>, ConnectionError>(ConnectionError::Decode(e))
                },
                Ok((name, vals)) => if !has_event(name, vals) {
                    final(self).state_view() == old(self).state_view() && if old(self).state_view() == ConnectionState::Play {
                        r matches Ok(None)
                    } else {
                        r == Err::<Option<AbstractPacket>, ConnectionError>(ConnectionError::Untranslatable { id: raw.id })
                    }
                } else {
                    exists|ap: AbstractPacket| #[trigger] incoming(name, vals, ap) && if unsupported(ap) {
                        r == Err::<Option<AbstractPacket>, ConnectionError>(ConnectionError::Unsupported)
                            && final(self).state_view() == old(self).state_view()
                    } else {
                        r == Ok::<Option<AbstractPacket>, ConnectionError>(Some(ap)) && final(self).state_view() == next_state(old(self).state_view(), ap)
                    }
                },
            },
    {
        let in_play = self.state == ConnectionState::Play;
        match decode_packet(&self.table, raw, self.state, PacketDirection::Client) {
            Err(e) => {
                if in_play {
                    Ok(None)
                } else {
                    Err(ConnectionError::Decode(e))
                }
            },
            Ok((p, _)) => {
                let ghost name = p.name;
                let ghost vals = views(p.values@);
                match AbstractPacket::from_packet(p) {
                    None => {
                        if in_play {
                            Ok(None)
                        } else {
                            Err(ConnectionError::Untranslatable { id: raw.id })
                        }
                    },
                    Some(ap) => {
                        assert(incoming(name, vals, ap));
                        match ap {
                            AbstractPacket::SetCompression { .. } | AbstractPacket::EncryptionBeginClientbound { .. } => {
                                Err(ConnectionError::Unsupported)
                            },
                            _ => {
                                self.state = transition(self.state, &ap);
                                Ok(Some(ap))
                            },
                        }
                    },
                }
            },
        }
    }

    /// Turns an outgoing event into the bytes of one frame. The state
    /// changes after the packet is encoded in the state it was sent in.
    pub fn write(&mut self, ap: AbstractPacket) -> (r: Result<Vec<u8>, ConnectionError>)
        ensures
            final(self).protocol_view() == old(self).protocol_view(),
            final(self).table_view() == old(self).table_view(),
            match outgoing(ap, old(self).table_view().protocol) {
                None => r == Err::<Vec<u8>, ConnectionError>(ConnectionError::Encode(encode_failure(ap, old(self).table_view().protocol)))
                    && final(self).state_view() == old(self).state_view(),
                Some((name, vals)) => if !values_fit(vals) {
                    r == Err::<Vec<u8>, ConnectionError>(ConnectionError::Encode(EncodeError::Unencodable))
                        && final(self).state_view() == old(self).state_view()
                } else { match find_by_name(old(self).table_view().packets@, old(self).state_view(), PacketDirection::Server, name, 0) {
                    None => r == Err::<Vec<u8>, ConnectionError>(ConnectionError::Encode(EncodeError::NotInTable {
                        protocol: old(self).table_view().protocol,
                        state: old(self).state_view(),
                        direction: PacketDirection::Server,
                    })) && final(self).state_view() == old(self).state_view(),
                    Some(k) => {
                        let t = old(self).table_view().packets@[k];
                        let payload = payload_wire(t.fields@, vals, old(self).table_view().protocol);
                        if payload.len() + 5 <= i32::MAX {
                            r matches Ok(bytes) && bytes@ == frame_wire(t.id, payload) && final(self).state_view() == next_state(old(self).state_view(), ap)
                        } else {
                            r == Err::<Vec<u8>, ConnectionError>(ConnectionError::TooLarge) && final(self).state_view() == old(self).state_view()
                        }
                    },
                } },
            },
    {
        let next = transition(self.state, &ap);
        let p = match ap.to_packet(self.table.protocol) {
            Ok(p) => p,
            Err(e) => {
                return Err(ConnectionError::Encode(e));
            },
        };
        let raw = match encode_packet(&self.table, &p, self.state, PacketDirection::Server) {
            Ok(raw) => raw,
            Err(e) => {
                return Err(ConnectionError::Encode(e));
            },
        };
        if raw.data.len() > 0x7fff_fffa {
            return Err(ConnectionError::TooLarge);
        }
        let bytes = MinecraftCodec::write(&raw);
        self.state = next;
        Ok(bytes)
    }
}


/// Every packet that `to_packet` produces for a version with a table has a
/// serverbound entry in that version's table.
pub proof fn outgoing_in_table(ap: AbstractPacket, v: ProtocolVersion)
    requires
        has_table(v),
        outgoing(ap, protocol_number(v)) is Some,
    ensures
        match outgoing(ap, protocol_number(v)) {
            Some((name, _)) => exists|i: int|
                0 <= i < table_rows(v)->0.len() && (#[trigger] table_rows(v)->0[i]).direction
                    == PacketDirection::Server && table_rows(v)->0[i].name == name,
            None => true,
        },
{
    match v {
        ProtocolVersion::Proto1_7_6 => {
            let rows = rows_1_7_6();
            assert(table_rows(v)->0 == rows);
            if let Some((name, _)) = outgoing(ap, protocol_number(v)) {
                if name == PacketName::SetProtocol_5 {
                    assert(rows[0].direction == PacketDirection::Server && rows[0].name == name);
                }
                if name == PacketName::PingStart_5 {
                    assert(rows[4].direction == PacketDirection::Server && rows[4].name == name);
                }
                if name == PacketName::Ping_5 {
                    assert(rows[5].direction == PacketDirection::Server && rows[5].name == name);
                }
                if name == PacketName::LoginStart_5 {
                    assert(rows[9].direction == PacketDirection::Server && rows[9].name == name);
                }
                if name == PacketName::EncryptionBeginServerbound_5 {
                    assert(rows[10].direction == PacketDirection::Server && rows[10].name == name);
                }
                if name == PacketName::KeepAlive_5 {
                    assert(rows[68].direction == PacketDirection::Server && rows[68].name == name);
                }
                if name == PacketName::ChatServerbound_5 {
                    assert(rows[69].direction == PacketDirection::Server && rows[69].name == name);
                }
                if name == PacketName::PositionLook_5 {
                    assert(rows[73].direction == PacketDirection::Server && rows[73].name == name);
                }
                if name == PacketName::ClientCommand_5 {
                    assert(rows[88].direction == PacketDirection::Server && rows[88].name == name);
                }
            }
        },
        ProtocolVersion::Proto1_8 => {
            let rows = rows_1_8();
            assert(table_rows(v)->0 == rows);
            if let Some((name, _)) = outgoing(ap, protocol_number(v)) {
                if name == PacketName::SetProtocol_5 {
                    assert(rows[0].direction == PacketDirection::Server && rows[0].name == name);
                }
                if name == PacketName::PingStart_5 {
                    assert(rows[4].direction == PacketDirection::Server && rows[4].name == name);
                }
                if name == PacketName::Ping_5 {
                    assert(rows[5].direction == PacketDirection::Server && rows[5].name == name);
                }
                if name == PacketName::LoginStart_5 {
                    assert(rows[10].direction == PacketDirection::Server && rows[10].name == name);
                }
                if name == PacketName::EncryptionBeginServerbound_47 {
                    assert(rows[11].direction == PacketDirection::Server && rows[11].name == name);
                }
                if name == PacketName::KeepAlive_47 {
                    assert(rows[74].direction == PacketDirection::Server && rows[74].name == name);
                }
                if name == PacketName::ChatServerbound_5 {
                    assert(rows[75].direction == PacketDirection::Server && rows[75].name == name);
                }
                if name == PacketName::PositionLook_47 {
                    assert(rows[79].direction == PacketDirection::Server && rows[79].name == name);
                }
                if name == PacketName::ClientCommand_47 {
                    assert(rows[94].direction == PacketDirection::Server && rows[94].name == name);
                }
            }
        },
        ProtocolVersion::Proto1_9_2 => {
            let rows = rows_1_9_2();
            assert(table_rows(v)->0 == rows);
            if let Some((name, _)) = outgoing(ap, protocol_number(v)) {
                if name == PacketName::SetProtocol_5 {
                    assert(rows[0].direction == PacketDirection::Server && rows[0].name == name);
                }
                if name == PacketName::PingStart_5 {
                    assert(rows[4].direction == PacketDirection::Server && rows[4].name == name);
                }
                if name == PacketName::Ping_5 {
                    assert(rows[5].direction == PacketDirection::Server && rows[5].name == name);
                }
                if name == PacketName::LoginStart_5 {
                    assert(rows[10].direction == PacketDirection::Server && rows[10].name == name);
                }
                if name == PacketName::EncryptionBeginServerbound_47 {
                    assert(rows[11].direction == PacketDirection::Server && rows[11].name == name);
                }
                if name == PacketName::ChatServerbound_5 {
                    assert(rows[80].direction == PacketDirection::Server && rows[80].name == name);
                }
                if name == PacketName::ClientCommand_107 {
                    assert(rows[81].direction == PacketDirection::Server && rows[81].name == name);
                }
                if name == PacketName::KeepAlive_47 {
                    assert(rows[89].direction == PacketDirection::Server && rows[89].name == name);
                }
                if name == PacketName::PositionLook_47 {
                    assert(rows[90].direction == PacketDirection::Server && rows[90].name == name);
                }
            }
        },
        ProtocolVersion::Proto1_12 => {
            let rows = rows_1_12();
            assert(table_rows(v)->0 == rows);
            if let Some((name, _)) = outgoing(ap, protocol_number(v)) {
                if name == PacketName::SetProtocol_5 {
                    assert(rows[0].direction == PacketDirection::Server && rows[0].name == name);
                }
                if name == PacketName::PingStart_5 {
                    assert(rows[4].direction == PacketDirection::Server && rows[4].name == name);
                }
                if name == PacketName::Ping_5 {
                    assert(rows[5].direction == PacketDirection::Server && rows[5].name == name);
                }
                if name == PacketName::LoginStart_5 {
                    assert(rows[10].direction == PacketDirection::Server && rows[10].name == name);
                }
                if name == PacketName::EncryptionBeginServerbound_47 {
                    assert(rows[11].direction == PacketDirection::Server && rows[11].name == name);
                }
                if name == PacketName::ChatServerbound_5 {
                    assert(rows[78].direction == PacketDirection::Server && rows[78].name == name);
                }
                if name == PacketName::ClientCommand_107 {
                    assert(rows[79].direction == PacketDirection::Server && rows[79].name == name);
                }
                if name == PacketName::KeepAlive_47 {
                    assert(rows[87].direction == PacketDirection::Server && rows[87].name == name);
                }
                if name == PacketName::PositionLook_47 {
                    assert(rows[89].direction == PacketDirection::Server && rows[89].name == name);
                }
            }
        },
        ProtocolVersion::Proto1_12_2 => {
            let rows = rows_1_12_2();
            assert(table_rows(v)->0 == rows);
            if let Some((name, _)) = outgoing(ap, protocol_number(v)) {
                if name == PacketName::SetProtocol_5 {
                    assert(rows[0].direction == PacketDirection::Server && rows[0].name == name);
                }
                if name == PacketName::PingStart_5 {
                    assert(rows[4].direction == PacketDirection::Server && rows[4].name == name);
                }
                if name == PacketName::Ping_5 {
                    assert(rows[5].direction == PacketDirection::Server && rows[5].name == name);
                }
                if name == PacketName::LoginStart_5 {
                    assert(rows[10].direction == PacketDirection::Server && rows[10].name == name);
                }
                if name == PacketName::EncryptionBeginServerbound_47 {
                    assert(rows[11].direction == PacketDirection::Server && rows[11].name == name);
                }
                if name == PacketName::ChatServerbound_5 {
                    assert(rows[79].direction == PacketDirection::Server && rows[79].name == name);
                }
                if name == PacketName::ClientCommand_107 {
                    assert(rows[80].direction == PacketDirection::Server && rows[80].name == name);
                }
                if name == PacketName::KeepAlive_340 {
                    assert(rows[88].direction == PacketDirection::Server && rows[88].name == name);
                }
                if name == PacketName::PositionLook_47 {
                    assert(rows[90].direction == PacketDirection::Server && rows[90].name == name);
                }
            }
        },
        _ => {},
    }
}

} // verus!

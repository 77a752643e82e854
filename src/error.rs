use vstd::prelude::*;

use crate::state::{ConnectionState, PacketDirection};
use crate::wrapper::EventKind;

verus! {

/// Field-level or registry-level failure while decoding a packet.
#[derive(Debug, Clone, Copy, PartialEq, Eq, Structural)]
pub enum DecodeError {
    /// The input ended before the value was complete.
    ShortRead,
    /// A length or count prefix was negative.
    InvalidLength,
    /// A string's bytes are not valid UTF-8.
    InvalidUtf8,
    /// An enumerated field held a value outside its range.
    InvalidDiscriminant,
    /// No packet of the active version has this id in this state and direction.
    Unmapped { id: i32, state: ConnectionState, direction: PacketDirection },
}

/// A frame whose length prefix disagrees with its id and payload.
#[derive(Debug, Clone, Copy, PartialEq, Eq, Structural)]
pub enum FramingError {
    /// The input ended before the frame was complete.
    Truncated,
    /// The length prefix is negative or shorter than the id it must cover.
    BadLength,
}

/// An outgoing packet that the active version cannot carry.
#[derive(Debug, Clone, Copy, PartialEq, Eq, Structural)]
pub enum EncodeError {
    /// The version has no packet for this kind of event.
    NoEncoding { protocol: i32, event: EventKind },
    /// A value does not fit its wire form: a string longer than its length
    /// prefix can state, or a malformed slot.
    Unencodable,
    /// A handshake may only ask for the status or login state.
    InvalidNextState { next_state: ConnectionState },
    /// The version's table has no entry for this packet in this state and direction.
    NotInTable { protocol: i32, state: ConnectionState, direction: PacketDirection },
}

/// The chunk payload ended before every announced array was read.
#[derive(Debug, Clone, Copy, PartialEq, Eq, Structural)]
pub struct ChunkDecodeError {
    /// Bytes that the bitmasks and flags call for.
    pub needed: usize,
    /// Bytes that were there.
    pub available: usize,
}

} // verus!

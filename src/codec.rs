use vstd::prelude::*;

use crate::error::FramingError;
use crate::varint::{
    read_varint, rest_of, varint_len, varint_read, varint_round_trip, varint_wire, write_varint,
};
use crate::wire::{append_bytes, copy_range};

verus! {

/// One frame's content: the packet id and its opaque payload.
#[derive(Debug, Clone)]
pub struct RawPacket {
    pub id: i32,
    pub data: Vec<u8>,
}

/// Splits a byte stream into frames and builds frames from packets. It never
/// looks inside a payload, whatever the version or state.
pub struct MinecraftCodec;

/// The frame for `id` and `data`: the length of id and payload as a varint,
/// the id as a varint, then the payload.
pub open spec fn frame_wire(id: i32, data: Seq<u8>) -> Seq<u8> {
    varint_wire((varint_wire(id).len() + data.len()) as i32) + varint_wire(id) + data
}

/// A frame at the start of `s`: id, payload and the bytes used.
pub open spec fn frame_read(s: Seq<u8>) -> Result<(i32, Seq<u8>, nat), FramingError> {
    match varint_read(s) {
        None => Err(FramingError::Truncated),
        Some((len, k)) => if len < 0 {
            Err(FramingError::BadLength)
        } else {
            match varint_read(s.subrange(k as int, s.len() as int)) {
                None => Err(FramingError::Truncated),
                Some((id, j)) => if len < j {
                    Err(FramingError::BadLength)
                } else if k + len > s.len() {
                    Err(FramingError::Truncated)
                } else {
                    Ok((id, s.subrange((k + j) as int, k + len), k + len as nat))
                },
            }
        },
    }
}

impl MinecraftCodec {
    /// Reads one frame from the start of `buf`: the packet and the number of
    /// bytes the frame took.
    pub fn read(buf: &[u8]) -> (r: Result<(RawPacket, usize), FramingError>)
        ensures
            match r {
                Ok((p, used)) => used <= buf@.len() && frame_read(buf@) == Ok::<
                    (i32, Seq<u8>, nat),
                    FramingError,
                >((p.id, p.data@, used as nat)),
                Err(e) => frame_read(buf@) == Err::<(i32, Seq<u8>, nat), FramingError>(e),
            },
    {
        assert(rest_of(buf@, 0) =~= buf@);
        let (len, k) = match read_varint(buf, 0) {
            Ok(x) => x,
            Err(_) => return Err(FramingError::Truncated),
        };
        if len < 0 {
            return Err(FramingError::BadLength);
        }
        let (id, after_id) = match read_varint(buf, k) {
            Ok(x) => x,
            Err(_) => return Err(FramingError::Truncated),
        };
        let j = after_id - k;
        if (len as usize) < j {
            return Err(FramingError::BadLength);
        }
        if buf.len() - k < len as usize {
            return Err(FramingError::Truncated);
        }
        let end = k + len as usize;
        let data = copy_range(buf, after_id, end);
        Ok((RawPacket { id, data }, end))
    }

    /// Builds the frame for `packet`.
    pub fn write(packet: &RawPacket) -> (r: Vec<u8>)
        requires
            packet.data@.len() + 5 <= i32::MAX,
        ensures
            r@ == frame_wire(packet.id, packet.data@),
    {
        let len = varint_len(packet.id) + packet.data.len();
        let mut out: Vec<u8> = Vec::new();
        write_varint(&mut out, len as i32);
        write_varint(&mut out, packet.id);
        append_bytes(&mut out, packet.data.as_slice());
        assert(out@ =~= frame_wire(packet.id, packet.data@));
        out
    }
}

/// Frame round trip: reading the frame built for any id and payload gives
/// the same id and payload back and uses exactly the frame's bytes, whatever
/// follows it.
pub proof fn frame_round_trip(id: i32, data: Seq<u8>, rest: Seq<u8>)
    requires
        data.len() + 5 <= i32::MAX,
    ensures
        frame_read(frame_wire(id, data) + rest) == Ok::<(i32, Seq<u8>, nat), FramingError>(
            (id, data, frame_wire(id, data).len()),
        ),
{
    let idb = varint_wire(id);
    varint_round_trip(id, data + rest);
    let len = (idb.len() + data.len()) as i32;
    let lb = varint_wire(len);
    let s = frame_wire(id, data) + rest;
    varint_round_trip(len, idb + data + rest);
    assert(s =~= lb + (idb + data + rest));
    assert(s.subrange(lb.len() as int, s.len() as int) =~= idb + (data + rest));
    assert(s.subrange((lb.len() + idb.len()) as int, lb.len() + len) =~= data);
}

} // verus!

use vstd::prelude::*;
use vstd::string::StringSliceAdditionalSpecFns;
use vstd::utf8::encode_utf8;

use crate::error::DecodeError;
use crate::varint::rest_of;
use crate::varint::{
    read_varint, read_varlong, varint_read, varint_wire, varlong_read, varlong_wire, write_varint,
    write_varlong, VarInt, VarLong,
};
use crate::varint::{varint_round_trip, varlong_round_trip};
use crate::wire::{
    append_bytes, copy_range, read_varstring, varstring_read, varstring_wire, write_varstring,
    lemma_byte_bound_small, read_signed, read_uint, signed_at, signed_read, signed_round_trip,
    signed_wire, unsigned_at, unsigned_round_trip, write_signed,
};

verus! {

/// First protocol number whose packed positions put `z` before `y`.
pub const PROTO_18W43A: i32 = 441;

/// A block position. Packed into one 64-bit integer on the wire: 26 bits of
/// `x`, then 12 bits of `y` and 26 bits of `z` before the cutover, or 26 bits
/// of `z` and 12 bits of `y` from it on.
#[derive(Debug, Clone, Copy, PartialEq, Eq, Structural)]
pub struct Position {
    pub x: i32,
    pub y: i32,
    pub z: i32,
}

/// Legacy position: `i32` x, `u8` y, `i32` z.
#[derive(Debug, Clone, Copy, PartialEq, Eq, Structural)]
pub struct PositionIBI {
    pub x: i32,
    pub y: u8,
    pub z: i32,
}

/// Legacy position: `i32` x, `i16` y, `i32` z.
#[derive(Debug, Clone, Copy, PartialEq, Eq, Structural)]
pub struct PositionISI {
    pub x: i32,
    pub y: i16,
    pub z: i32,
}

/// Legacy position: three `i32`.
#[derive(Debug, Clone, Copy, PartialEq, Eq, Structural)]
pub struct PositionIII {
    pub x: i32,
    pub y: i32,
    pub z: i32,
}

pub open spec fn pack_before_cutover(x: i32, y: i32, z: i32) -> i64 {
    (((x as i64) & 0x3ff_ffff) << 38u64) | (((y as i64) & 0xfff) << 26u64) | ((z as i64)
        & 0x3ff_ffff)
}

pub open spec fn pack_from_cutover(x: i32, y: i32, z: i32) -> i64 {
    (((x as i64) & 0x3ff_ffff) << 38u64) | (((z as i64) & 0x3ff_ffff) << 12u64) | ((y as i64)
        & 0xfff)
}

pub open spec fn unpack_x(v: i64) -> i32 {
    (v >> 38u64) as i32
}

pub open spec fn unpack_y_before_cutover(v: i64) -> i32 {
    ((v >> 26u64) & 0xfff) as i32
}

pub open spec fn unpack_z_before_cutover(v: i64) -> i32 {
    ((v << 38u64) >> 38u64) as i32
}

pub open spec fn unpack_y_from_cutover(v: i64) -> i32 {
    ((v << 52u64) >> 52u64) as i32
}

pub open spec fn unpack_z_from_cutover(v: i64) -> i32 {
    ((v << 26u64) >> 38u64) as i32
}

/// The packed form of `p` under the layout of `version`.
pub open spec fn pack_spec(p: Position, version: i32) -> i64 {
    if version < PROTO_18W43A {
        pack_before_cutover(p.x, p.y, p.z)
    } else {
        pack_from_cutover(p.x, p.y, p.z)
    }
}

/// The position that `v` holds under the layout of `version`.
pub open spec fn unpack_spec(v: i64, version: i32) -> Position {
    if version < PROTO_18W43A {
        Position { x: unpack_x(v), y: unpack_y_before_cutover(v), z: unpack_z_before_cutover(v) }
    } else {
        Position { x: unpack_x(v), y: unpack_y_from_cutover(v), z: unpack_z_from_cutover(v) }
    }
}

/// Whether the layout of `version` can hold `p`: `x` and `z` in 26 signed
/// bits; `y` in 12 unsigned bits before the cutover, 12 signed bits from it on.
pub open spec fn position_fits(p: Position, version: i32) -> bool {
    &&& -0x200_0000 <= p.x < 0x200_0000
    &&& -0x200_0000 <= p.z < 0x200_0000
    &&& if version < PROTO_18W43A {
        0 <= p.y < 0x1000
    } else {
        -0x800 <= p.y < 0x800
    }
}

/// A packed position at the start of `s`.
pub open spec fn position_read(s: Seq<u8>, version: i32) -> Result<(Position, nat), DecodeError> {
    match signed_read(s, 8) {
        Ok(v) => Ok((unpack_spec(v as i64, version), 8)),
        Err(e) => Err(e),
    }
}

/// What `Position::write_to_versioned` emits.
pub open spec fn position_wire(p: Position, version: i32) -> Seq<u8> {
    signed_wire(pack_spec(p, version), 8)
}

proof fn lemma_before_cutover(x: i32, y: i32, z: i32)
    requires
        -0x200_0000 <= x < 0x200_0000,
        -0x200_0000 <= z < 0x200_0000,
        0 <= y < 0x1000,
    ensures
        unpack_x(pack_before_cutover(x, y, z)) == x,
        unpack_y_before_cutover(pack_before_cutover(x, y, z)) == y,
        unpack_z_before_cutover(pack_before_cutover(x, y, z)) == z,
{
    assert(unpack_x(pack_before_cutover(x, y, z)) == x) by (bit_vector)
        requires
            -0x200_0000 <= x < 0x200_0000,
    ;
    assert(unpack_y_before_cutover(pack_before_cutover(x, y, z)) == y) by (bit_vector)
        requires
            0 <= y < 0x1000,
    ;
    assert(unpack_z_before_cutover(pack_before_cutover(x, y, z)) == z) by (bit_vector)
        requires
            -0x200_0000 <= z < 0x200_0000,
    ;
}

proof fn lemma_from_cutover(x: i32, y: i32, z: i32)
    requires
        -0x200_0000 <= x < 0x200_0000,
        -0x200_0000 <= z < 0x200_0000,
        -0x800 <= y < 0x800,
    ensures
        unpack_x(pack_from_cutover(x, y, z)) == x,
        unpack_y_from_cutover(pack_from_cutover(x, y, z)) == y,
        unpack_z_from_cutover(pack_from_cutover(x, y, z)) == z,
{
    assert(unpack_x(pack_from_cutover(x, y, z)) == x) by (bit_vector)
        requires
            -0x200_0000 <= x < 0x200_0000,
    ;
    assert(unpack_y_from_cutover(pack_from_cutover(x, y, z)) == y) by (bit_vector)
        requires
            -0x800 <= y < 0x800,
    ;
    assert(unpack_z_from_cutover(pack_from_cutover(x, y, z)) == z) by (bit_vector)
        requires
            -0x200_0000 <= z < 0x200_0000,
    ;
}

/// Position bit-packing round trip: unpacking what `pack` produced under the
/// same version gives the position back, for every position that layout holds.
pub proof fn position_round_trip(p: Position, version: i32)
    requires
        position_fits(p, version),
    ensures
        unpack_spec(pack_spec(p, version), version) == p,
{
    if version < PROTO_18W43A {
        lemma_before_cutover(p.x, p.y, p.z);
    } else {
        lemma_from_cutover(p.x, p.y, p.z);
    }
}

impl Position {
    /// Packs the position with the layout of `version`.
    pub fn pack(&self, version: i32) -> (r: i64)
        ensures
            r == pack_spec(*self, version),
    {
        let x = self.x as i64;
        let y = self.y as i64;
        let z = self.z as i64;
        if version < PROTO_18W43A {
            ((x & 0x3ff_ffff) << 38u64) | ((y & 0xfff) << 26u64) | (z & 0x3ff_ffff)
        } else {
            ((x & 0x3ff_ffff) << 38u64) | ((z & 0x3ff_ffff) << 12u64) | (y & 0xfff)
        }
    }

    /// Unpacks a position with the layout of `version`.
    pub fn unpack(v: i64, version: i32) -> (r: Position)
        ensures
            r == unpack_spec(v, version),
    {
        if version < PROTO_18W43A {
            Position {
                x: #[verifier::truncate] ((v >> 38u64) as i32),
                y: #[verifier::truncate] (((v >> 26u64) & 0xfff) as i32),
                z: #[verifier::truncate] (((v << 38u64) >> 38u64) as i32),
            }
        } else {
            Position {
                x: #[verifier::truncate] ((v >> 38u64) as i32),
                y: #[verifier::truncate] (((v << 52u64) >> 52u64) as i32),
                z: #[verifier::truncate] (((v << 26u64) >> 38u64) as i32),
            }
        }
    }

    /// Reads a packed position at `pos`.
    pub fn read_from_versioned(buf: &[u8], pos: usize, version: i32) -> (r: Result<
        (Position, usize),
        DecodeError,
    >)
        requires
            pos <= buf@.len(),
        ensures
            match r {
                Ok((p, end)) => end == pos + 8 && position_read(rest_of(buf@, pos as int), version)
                    == Ok::<(Position, nat), DecodeError>((p, 8)),
                Err(e) => position_read(rest_of(buf@, pos as int), version) == Err::<
                    (Position, nat),
                    DecodeError,
                >(e),
            },
    {
        let (v, end) = read_signed(buf, pos, 8)?;
        Ok((Position::unpack(v, version), end))
    }

    /// Appends the position packed with the layout of `version`.
    pub fn write_to_versioned(&self, out: &mut Vec<u8>, version: i32)
        ensures
            final(out)@ == old(out)@ + position_wire(*self, version),
    {
        let v = self.pack(version);
        write_signed(out, v, 8);
    }
}

impl From<PositionIBI> for Position {
    fn from(p: PositionIBI) -> (r: Position) {
        Position { x: p.x, y: p.y as i32, z: p.z }
    }
}

impl From<PositionISI> for Position {
    fn from(p: PositionISI) -> (r: Position) {
        Position { x: p.x, y: p.y as i32, z: p.z }
    }
}

impl From<PositionIII> for Position {
    fn from(p: PositionIII) -> (r: Position) {
        Position { x: p.x, y: p.y, z: p.z }
    }
}

impl vstd::std_specs::convert::FromSpecImpl<PositionIBI> for Position {
    open spec fn obeys_from_spec() -> bool {
        true
    }

    open spec fn from_spec(p: PositionIBI) -> Position {
        Position { x: p.x, y: p.y as i32, z: p.z }
    }
}

impl vstd::std_specs::convert::FromSpecImpl<PositionISI> for Position {
    open spec fn obeys_from_spec() -> bool {
        true
    }

    open spec fn from_spec(p: PositionISI) -> Position {
        Position { x: p.x, y: p.y as i32, z: p.z }
    }
}

impl vstd::std_specs::convert::FromSpecImpl<PositionIII> for Position {
    open spec fn obeys_from_spec() -> bool {
        true
    }

    open spec fn from_spec(p: PositionIII) -> Position {
        Position { x: p.x, y: p.y, z: p.z }
    }
}

/// A wire type that reads from a byte offset and appends itself, with its
/// wire form stated by `spec_read` and `spec_wire`.
pub trait Serializable: Sized {
    /// The value at offset `pos` of `s` and the offset after it.
    spec fn spec_read(s: Seq<u8>, pos: int) -> Result<(Self, int), DecodeError>;

    /// The bytes the value is written as.
    spec fn spec_wire(self) -> Seq<u8>;

    /// Whether the value survives a write and a read: every field fits the
    /// bits the wire gives it.
    spec fn wire_valid(self) -> bool;

    /// Serialization round trip: reading what `write_to` emits for a valid
    /// value gives the value back and uses exactly those bytes, whatever
    /// follows them.
    proof fn lemma_round_trip(self, rest: Seq<u8>)
        requires
            self.wire_valid(),
        ensures
            Self::spec_read(self.spec_wire() + rest, 0) == Ok::<(Self, int), DecodeError>(
                (self, self.spec_wire().len() as int),
            ),
    ;

    fn read_from(buf: &[u8], pos: usize) -> (r: Result<(Self, usize), DecodeError>)
        requires
            pos <= buf@.len(),
        ensures
            r matches Ok((v, end)) ==> end <= buf@.len() && Self::spec_read(buf@, pos as int)
                == Ok::<(Self, int), DecodeError>((v, end as int)),
            r matches Err(e) ==> Self::spec_read(buf@, pos as int) == Err::<(Self, int), DecodeError>(
                e,
            ),
    ;

    fn write_to(&self, out: &mut Vec<u8>)
        ensures
            final(out)@ == old(out)@ + self.spec_wire(),
    ;
}

impl Serializable for VarInt {
    open spec fn spec_read(s: Seq<u8>, pos: int) -> Result<(Self, int), DecodeError> {
        match varint_read(rest_of(s, pos)) {
            Some((v, n)) => Ok((VarInt(v), pos + n)),
            None => Err(DecodeError::ShortRead),
        }
    }

    open spec fn spec_wire(self) -> Seq<u8> {
        varint_wire(self.0)
    }

    open spec fn wire_valid(self) -> bool {
        true
    }

    proof fn lemma_round_trip(self, rest: Seq<u8>) {
        varint_round_trip(self.0, rest);
        assert(rest_of(self.spec_wire() + rest, 0) =~= self.spec_wire() + rest);
    }

    fn read_from(buf: &[u8], pos: usize) -> (r: Result<(Self, usize), DecodeError>) {
        let (v, end) = read_varint(buf, pos)?;
        Ok((VarInt(v), end))
    }

    fn write_to(&self, out: &mut Vec<u8>) {
        write_varint(out, self.0);
    }
}

impl Serializable for VarLong {
    open spec fn spec_read(s: Seq<u8>, pos: int) -> Result<(Self, int), DecodeError> {
        match varlong_read(rest_of(s, pos)) {
            Some((v, n)) => Ok((VarLong(v), pos + n)),
            None => Err(DecodeError::ShortRead),
        }
    }

    open spec fn spec_wire(self) -> Seq<u8> {
        varlong_wire(self.0)
    }

    open spec fn wire_valid(self) -> bool {
        self.0 >= 0
    }

    proof fn lemma_round_trip(self, rest: Seq<u8>) {
        varlong_round_trip(self.0, rest);
        assert(rest_of(self.spec_wire() + rest, 0) =~= self.spec_wire() + rest);
    }

    fn read_from(buf: &[u8], pos: usize) -> (r: Result<(Self, usize), DecodeError>) {
        let (v, end) = read_varlong(buf, pos)?;
        Ok((VarLong(v), end))
    }

    fn write_to(&self, out: &mut Vec<u8>) {
        write_varlong(out, self.0);
    }
}

/// One block offset of an explosion, relative to its centre.
#[allow(non_camel_case_types)]
#[derive(Debug, Clone, Copy, PartialEq, Eq, Structural)]
pub struct ExplosionRecord_5 {
    pub x: i8,
    pub y: i8,
    pub z: i8,
}

/// Where one column of a chunk batch sits and which sections it carries
/// (legacy form, with the extended block-id mask).
#[allow(non_camel_case_types)]
#[derive(Debug, Clone, Copy, PartialEq, Eq, Structural)]
pub struct ChunkMetadata {
    pub chunk_x: i32,
    pub chunk_z: i32,
    pub primary_bitmap: u16,
    pub add_bitmap: u16,
}

/// Where one column of a chunk batch sits and which sections it carries.
#[allow(non_camel_case_types)]
#[derive(Debug, Clone, Copy, PartialEq, Eq, Structural)]
pub struct ChunkMetadata_47 {
    pub chunk_x: i32,
    pub chunk_z: i32,
    pub bitmap: u16,
}

/// One entry of a legacy multi-block change, packed into 32 bits on the
/// wire: x (4 bits), z (4), y (8), block id (12), metadata (4).
#[allow(non_camel_case_types)]
#[derive(Debug, Clone, Copy, PartialEq, Eq, Structural)]
pub struct BlockChangeRecord_5 {
    pub block_meta: u8,
    pub block_id: u16,
    pub y: u8,
    pub z: u8,
    pub x: u8,
}

/// One entry of a multi-block change: x and z in one byte, y, and the block.
#[allow(non_camel_case_types)]
#[derive(Debug, Clone, Copy, PartialEq, Eq, Structural)]
pub struct BlockChangeRecord_47 {
    pub pos_horizontal: u8,
    pub y: u8,
    pub block_id: VarInt,
}

impl Serializable for ExplosionRecord_5 {
    open spec fn spec_read(s: Seq<u8>, pos: int) -> Result<(Self, int), DecodeError> {
        match (signed_at(s, pos, 1), signed_at(s, pos + 1, 1), signed_at(s, pos + 2, 1)) {
            (Ok(x), Ok(y), Ok(z)) => Ok((ExplosionRecord_5 { x: x as i8, y: y as i8, z: z as i8 }, pos + 3)),
            (Err(e), _, _) => Err(e),
            (_, Err(e), _) => Err(e),
            (_, _, Err(e)) => Err(e),
        }
    }

    open spec fn spec_wire(self) -> Seq<u8> {
        signed_wire(self.x as i64, 1) + signed_wire(self.y as i64, 1) + signed_wire(self.z as i64, 1)
    }

    open spec fn wire_valid(self) -> bool {
        true
    }

    proof fn lemma_round_trip(self, rest: Seq<u8>) {
        lemma_byte_bound_small();
        let wx = signed_wire(self.x as i64, 1);
        let wy = signed_wire(self.y as i64, 1);
        let wz = signed_wire(self.z as i64, 1);
        let s = self.spec_wire() + rest;
        signed_round_trip(self.x as i64, 1, wy + wz + rest);
        signed_round_trip(self.y as i64, 1, wz + rest);
        signed_round_trip(self.z as i64, 1, rest);
        assert(rest_of(s, 0) =~= wx + (wy + wz + rest));
        assert(rest_of(s, 1) =~= wy + (wz + rest));
        assert(rest_of(s, 2) =~= wz + rest);
    }

    fn read_from(buf: &[u8], pos: usize) -> (r: Result<(Self, usize), DecodeError>) {
        let (x, after_first) = read_signed(buf, pos, 1)?;
        let (y, after_second) = read_signed(buf, after_first, 1)?;
        let (z, after_third) = read_signed(buf, after_second, 1)?;
        Ok((ExplosionRecord_5 { x: #[verifier::truncate] (x as i8), y: #[verifier::truncate] (y as i8), z: #[verifier::truncate] (z as i8) }, after_third))
    }

    fn write_to(&self, out: &mut Vec<u8>) {
        write_signed(out, self.x as i64, 1);
        write_signed(out, self.y as i64, 1);
        write_signed(out, self.z as i64, 1);
        assert(out@ =~= old(out)@ + self.spec_wire());
    }
}

impl Serializable for ChunkMetadata {
    open spec fn spec_read(s: Seq<u8>, pos: int) -> Result<(Self, int), DecodeError> {
        match (
            signed_at(s, pos, 4),
            signed_at(s, pos + 4, 4),
            unsigned_at(s, pos + 8, 2),
            unsigned_at(s, pos + 10, 2),
        ) {
            (Ok(x), Ok(z), Ok(p), Ok(a)) => Ok(
                (
                    ChunkMetadata {
                        chunk_x: x as i32,
                        chunk_z: z as i32,
                        primary_bitmap: p as u16,
                        add_bitmap: a as u16,
                    },
                    pos + 12,
                ),
            ),
            (Err(e), _, _, _) => Err(e),
            (_, Err(e), _, _) => Err(e),
            (_, _, Err(e), _) => Err(e),
            (_, _, _, Err(e)) => Err(e),
        }
    }

    open spec fn spec_wire(self) -> Seq<u8> {
        signed_wire(self.chunk_x as i64, 4) + signed_wire(self.chunk_z as i64, 4) + signed_wire(
            self.primary_bitmap as i64,
            2,
        ) + signed_wire(self.add_bitmap as i64, 2)
    }

    open spec fn wire_valid(self) -> bool {
        true
    }

    proof fn lemma_round_trip(self, rest: Seq<u8>) {
        lemma_byte_bound_small();
        let wx = signed_wire(self.chunk_x as i64, 4);
        let wz = signed_wire(self.chunk_z as i64, 4);
        let wp = signed_wire(self.primary_bitmap as i64, 2);
        let wa = signed_wire(self.add_bitmap as i64, 2);
        let s = self.spec_wire() + rest;
        signed_round_trip(self.chunk_x as i64, 4, wz + wp + wa + rest);
        signed_round_trip(self.chunk_z as i64, 4, wp + wa + rest);
        unsigned_round_trip(self.primary_bitmap as i64, 2, wa + rest);
        unsigned_round_trip(self.add_bitmap as i64, 2, rest);
        assert(rest_of(s, 0) =~= wx + (wz + wp + wa + rest));
        assert(rest_of(s, 4) =~= wz + (wp + wa + rest));
        assert(rest_of(s, 8) =~= wp + (wa + rest));
        assert(rest_of(s, 10) =~= wa + rest);
    }

    fn read_from(buf: &[u8], pos: usize) -> (r: Result<(Self, usize), DecodeError>) {
        let (x, after_first) = read_signed(buf, pos, 4)?;
        let (z, after_second) = read_signed(buf, after_first, 4)?;
        let (p, after_third) = read_uint(buf, after_second, 2)?;
        let (a, after_fourth) = read_uint(buf, after_third, 2)?;
        Ok(
            (
                ChunkMetadata {
                    chunk_x: #[verifier::truncate] (x as i32),
                    chunk_z: #[verifier::truncate] (z as i32),
                    primary_bitmap: #[verifier::truncate] (p as u16),
                    add_bitmap: #[verifier::truncate] (a as u16),
                },
                after_fourth,
            ),
        )
    }

    fn write_to(&self, out: &mut Vec<u8>) {
        write_signed(out, self.chunk_x as i64, 4);
        write_signed(out, self.chunk_z as i64, 4);
        write_signed(out, self.primary_bitmap as i64, 2);
        write_signed(out, self.add_bitmap as i64, 2);
        assert(out@ =~= old(out)@ + self.spec_wire());
    }
}

impl Serializable for ChunkMetadata_47 {
    open spec fn spec_read(s: Seq<u8>, pos: int) -> Result<(Self, int), DecodeError> {
        match (signed_at(s, pos, 4), signed_at(s, pos + 4, 4), unsigned_at(s, pos + 8, 2)) {
            (Ok(x), Ok(z), Ok(b)) => Ok(
                (ChunkMetadata_47 { chunk_x: x as i32, chunk_z: z as i32, bitmap: b as u16 }, pos + 10),
            ),
            (Err(e), _, _) => Err(e),
            (_, Err(e), _) => Err(e),
            (_, _, Err(e)) => Err(e),
        }
    }

    open spec fn spec_wire(self) -> Seq<u8> {
        signed_wire(self.chunk_x as i64, 4) + signed_wire(self.chunk_z as i64, 4) + signed_wire(
            self.bitmap as i64,
            2,
        )
    }

    open spec fn wire_valid(self) -> bool {
        true
    }

    proof fn lemma_round_trip(self, rest: Seq<u8>) {
        lemma_byte_bound_small();
        let wx = signed_wire(self.chunk_x as i64, 4);
        let wz = signed_wire(self.chunk_z as i64, 4);
        let wb = signed_wire(self.bitmap as i64, 2);
        let s = self.spec_wire() + rest;
        signed_round_trip(self.chunk_x as i64, 4, wz + wb + rest);
        signed_round_trip(self.chunk_z as i64, 4, wb + rest);
        unsigned_round_trip(self.bitmap as i64, 2, rest);
        assert(rest_of(s, 0) =~= wx + (wz + wb + rest));
        assert(rest_of(s, 4) =~= wz + (wb + rest));
        assert(rest_of(s, 8) =~= wb + rest);
    }

    fn read_from(buf: &[u8], pos: usize) -> (r: Result<(Self, usize), DecodeError>) {
        let (x, after_first) = read_signed(buf, pos, 4)?;
        let (z, after_second) = read_signed(buf, after_first, 4)?;
        let (b, after_third) = read_uint(buf, after_second, 2)?;
        Ok(
            (
                ChunkMetadata_47 {
                    chunk_x: #[verifier::truncate] (x as i32),
                    chunk_z: #[verifier::truncate] (z as i32),
                    bitmap: #[verifier::truncate] (b as u16),
                },
                after_third,
            ),
        )
    }

    fn write_to(&self, out: &mut Vec<u8>) {
        write_signed(out, self.chunk_x as i64, 4);
        write_signed(out, self.chunk_z as i64, 4);
        write_signed(out, self.bitmap as i64, 2);
        assert(out@ =~= old(out)@ + self.spec_wire());
    }
}

/// The fields of a legacy block change packed in `v`.
pub open spec fn block_change_of(v: u32) -> BlockChangeRecord_5 {
    BlockChangeRecord_5 {
        block_meta: (v & 0xf) as u8,
        block_id: ((v >> 4u32) & 0xfff) as u16,
        y: ((v >> 16u32) & 0xff) as u8,
        z: ((v >> 24u32) & 0xf) as u8,
        x: ((v >> 28u32) & 0xf) as u8,
    }
}

/// The 32 bits of a legacy block change; each field keeps its low bits.
pub open spec fn block_change_bits(r: BlockChangeRecord_5) -> u32 {
    (((r.x as u32) & 0xf) << 28u32) | (((r.z as u32) & 0xf) << 24u32) | ((r.y as u32) << 16u32) | (((
    r.block_id as u32) & 0xfff) << 4u32) | ((r.block_meta as u32) & 0xf)
}

impl BlockChangeRecord_5 {
    /// Unpacks the fields from their 32-bit form.
    pub fn from_u32(v: u32) -> (r: Self)
        ensures
            r == block_change_of(v),
    {
        BlockChangeRecord_5 {
            block_meta: (v & 0xf) as u8,
            block_id: ((v >> 4u32) & 0xfff) as u16,
            y: ((v >> 16u32) & 0xff) as u8,
            z: ((v >> 24u32) & 0xf) as u8,
            x: ((v >> 28u32) & 0xf) as u8,
        }
    }

    /// Packs the fields into their 32-bit form.
    pub fn to_u32(&self) -> (r: u32)
        ensures
            r == block_change_bits(*self),
    {
        (((self.x as u32) & 0xf) << 28u32) | (((self.z as u32) & 0xf) << 24u32) | ((self.y as u32)
            << 16u32) | (((self.block_id as u32) & 0xfff) << 4u32) | ((self.block_meta as u32) & 0xf)
    }
}

impl Serializable for BlockChangeRecord_5 {
    open spec fn spec_read(s: Seq<u8>, pos: int) -> Result<(Self, int), DecodeError> {
        match unsigned_at(s, pos, 4) {
            Ok(v) => Ok((block_change_of(v as u32), pos + 4)),
            Err(e) => Err(e),
        }
    }

    open spec fn spec_wire(self) -> Seq<u8> {
        signed_wire(block_change_bits(self) as i64, 4)
    }

    open spec fn wire_valid(self) -> bool {
        self.block_meta < 16 && self.block_id < 4096 && self.z < 16 && self.x < 16
    }

    proof fn lemma_round_trip(self, rest: Seq<u8>) {
        lemma_byte_bound_small();
        let bits = block_change_bits(self);
        unsigned_round_trip(bits as i64, 4, rest);
        assert(rest_of(self.spec_wire() + rest, 0) =~= self.spec_wire() + rest);
        let (m, i, y, z, x) = (self.block_meta, self.block_id, self.y, self.z, self.x);
        assert(((((x as u32) & 0xf) << 28u32) | (((z as u32) & 0xf) << 24u32) | ((y as u32) << 16u32) | (((i as u32) & 0xfff) << 4u32) | ((m as u32) & 0xf)) as i64 as u32
            == ((((x as u32) & 0xf) << 28u32) | (((z as u32) & 0xf) << 24u32) | ((y as u32) << 16u32) | (((i as u32) & 0xfff) << 4u32) | ((m as u32) & 0xf))) by (bit_vector);
        let v = bits;
        assert(((v & 0xf) as u8 == m && ((v >> 4u32) & 0xfff) as u16 == i && ((v >> 16u32) & 0xff) as u8 == y
            && ((v >> 24u32) & 0xf) as u8 == z && ((v >> 28u32) & 0xf) as u8 == x)) by (bit_vector)
            requires
                v == ((((x as u32) & 0xf) << 28u32) | (((z as u32) & 0xf) << 24u32) | ((y as u32) << 16u32) | (((i as u32) & 0xfff) << 4u32) | ((m as u32) & 0xf)),
                m < 16,
                i < 4096,
                z < 16,
                x < 16,
        ;
    }

    fn read_from(buf: &[u8], pos: usize) -> (r: Result<(Self, usize), DecodeError>) {
        let (v, end) = read_uint(buf, pos, 4)?;
        Ok((Self::from_u32(#[verifier::truncate] (v as u32)), end))
    }

    fn write_to(&self, out: &mut Vec<u8>) {
        write_signed(out, self.to_u32() as i64, 4);
    }
}

impl Serializable for BlockChangeRecord_47 {
    open spec fn spec_read(s: Seq<u8>, pos: int) -> Result<(Self, int), DecodeError> {
        match (unsigned_at(s, pos, 1), unsigned_at(s, pos + 1, 1), varint_read(rest_of(s, pos + 2))) {
            (Ok(h), Ok(y), Some((b, n))) => Ok(
                (
                    BlockChangeRecord_47 { pos_horizontal: h as u8, y: y as u8, block_id: VarInt(b) },
                    pos + 2 + n,
                ),
            ),
            (Err(e), _, _) => Err(e),
            (_, Err(e), _) => Err(e),
            (_, _, None) => Err(DecodeError::ShortRead),
        }
    }

    open spec fn spec_wire(self) -> Seq<u8> {
        signed_wire(self.pos_horizontal as i64, 1) + signed_wire(self.y as i64, 1) + varint_wire(
            self.block_id.0,
        )
    }

    open spec fn wire_valid(self) -> bool {
        true
    }

    proof fn lemma_round_trip(self, rest: Seq<u8>) {
        lemma_byte_bound_small();
        let wh = signed_wire(self.pos_horizontal as i64, 1);
        let wy = signed_wire(self.y as i64, 1);
        let wb = varint_wire(self.block_id.0);
        let s = self.spec_wire() + rest;
        unsigned_round_trip(self.pos_horizontal as i64, 1, wy + wb + rest);
        unsigned_round_trip(self.y as i64, 1, wb + rest);
        varint_round_trip(self.block_id.0, rest);
        assert(rest_of(s, 0) =~= wh + (wy + wb + rest));
        assert(rest_of(s, 1) =~= wy + (wb + rest));
        assert(rest_of(s, 2) =~= wb + rest);
    }

    fn read_from(buf: &[u8], pos: usize) -> (r: Result<(Self, usize), DecodeError>) {
        let (h, after_first) = read_uint(buf, pos, 1)?;
        let (y, after_second) = read_uint(buf, after_first, 1)?;
        let (b, after_third) = read_varint(buf, after_second)?;
        Ok(
            (
                BlockChangeRecord_47 {
                    pos_horizontal: #[verifier::truncate] (h as u8),
                    y: #[verifier::truncate] (y as u8),
                    block_id: VarInt(b),
                },
                after_third,
            ),
        )
    }

    fn write_to(&self, out: &mut Vec<u8>) {
        write_signed(out, self.pos_horizontal as i64, 1);
        write_signed(out, self.y as i64, 1);
        write_varint(out, self.block_id.0);
        assert(out@ =~= old(out)@ + self.spec_wire());
    }
}

/// An animation an entity plays, as the protocol numbers them.
#[derive(Debug, Clone, Copy, PartialEq, Eq, Structural)]
pub enum EntityAnimation {
    SwingArm,
    DamageAnimation,
    LeaveBed,
    EatFood,
    CriticalEffect,
    MagicCriticalEffect,
    Unknown,
    Crouch,
    Uncrouch,
}

/// The protocol number of each animation.
pub open spec fn animation_id(a: EntityAnimation) -> u8 {
    match a {
        EntityAnimation::SwingArm => 0,
        EntityAnimation::DamageAnimation => 1,
        EntityAnimation::LeaveBed => 2,
        EntityAnimation::EatFood => 3,
        EntityAnimation::CriticalEffect => 4,
        EntityAnimation::MagicCriticalEffect => 5,
        EntityAnimation::Unknown => 102,
        EntityAnimation::Crouch => 104,
        EntityAnimation::Uncrouch => 105,
    }
}

impl EntityAnimation {
    /// The animation's protocol number.
    pub fn id(&self) -> (r: u8)
        ensures
            r == animation_id(*self),
    {
        match self {
            EntityAnimation::SwingArm => 0,
            EntityAnimation::DamageAnimation => 1,
            EntityAnimation::LeaveBed => 2,
            EntityAnimation::EatFood => 3,
            EntityAnimation::CriticalEffect => 4,
            EntityAnimation::MagicCriticalEffect => 5,
            EntityAnimation::Unknown => 102,
            EntityAnimation::Crouch => 104,
            EntityAnimation::Uncrouch => 105,
        }
    }

    /// The animation with protocol number `id`, if there is one.
    pub fn from_id(id: u8) -> (r: Option<EntityAnimation>)
        ensures
            match r {
                Some(a) => animation_id(a) == id,
                None => forall|a: EntityAnimation| animation_id(a) != id,
            },
    {
        if id == 0 {
            Some(EntityAnimation::SwingArm)
        } else if id == 1 {
            Some(EntityAnimation::DamageAnimation)
        } else if id == 2 {
            Some(EntityAnimation::LeaveBed)
        } else if id == 3 {
            Some(EntityAnimation::EatFood)
        } else if id == 4 {
            Some(EntityAnimation::CriticalEffect)
        } else if id == 5 {
            Some(EntityAnimation::MagicCriticalEffect)
        } else if id == 102 {
            Some(EntityAnimation::Unknown)
        } else if id == 104 {
            Some(EntityAnimation::Crouch)
        } else if id == 105 {
            Some(EntityAnimation::Uncrouch)
        } else {
            None
        }
    }
}

/// Extra data of a spawned object: a value and, when that value is not
/// zero, a velocity.
#[derive(Debug, Clone, Copy, PartialEq, Eq)]
pub struct ObjectData {
    pub data: i32,
    pub velocity: Option<(i16, i16, i16)>,
}

impl Serializable for ObjectData {
    open spec fn spec_read(s: Seq<u8>, pos: int) -> Result<(Self, int), DecodeError> {
        match signed_at(s, pos, 4) {
            Err(e) => Err(e),
            Ok(d) => if d == 0 {
                Ok((ObjectData { data: 0, velocity: None }, pos + 4))
            } else {
                match (signed_at(s, pos + 4, 2), signed_at(s, pos + 6, 2), signed_at(s, pos + 8, 2)) {
                    (Ok(x), Ok(y), Ok(z)) => Ok(
                        (ObjectData { data: d as i32, velocity: Some((x as i16, y as i16, z as i16)) }, pos + 10),
                    ),
                    (Err(e), _, _) => Err(e),
                    (_, Err(e), _) => Err(e),
                    (_, _, Err(e)) => Err(e),
                }
            },
        }
    }

    open spec fn spec_wire(self) -> Seq<u8> {
        signed_wire(self.data as i64, 4) + match self.velocity {
            Some((x, y, z)) => signed_wire(x as i64, 2) + signed_wire(y as i64, 2) + signed_wire(
                z as i64,
                2,
            ),
            None => Seq::empty(),
        }
    }

    open spec fn wire_valid(self) -> bool {
        (self.data != 0) == (self.velocity is Some)
    }

    proof fn lemma_round_trip(self, rest: Seq<u8>) {
        lemma_byte_bound_small();
        let wd = signed_wire(self.data as i64, 4);
        let s = self.spec_wire() + rest;
        match self.velocity {
            Some((x, y, z)) => {
                let wx = signed_wire(x as i64, 2);
                let wy = signed_wire(y as i64, 2);
                let wz = signed_wire(z as i64, 2);
                assert(self.spec_wire() == wd + (wx + wy + wz));
                assert(s =~= wd + wx + wy + wz + rest);
                signed_round_trip(self.data as i64, 4, wx + wy + wz + rest);
                signed_round_trip(x as i64, 2, wy + wz + rest);
                signed_round_trip(y as i64, 2, wz + rest);
                signed_round_trip(z as i64, 2, rest);
                assert(rest_of(s, 0) =~= wd + (wx + wy + wz + rest));
                assert(rest_of(s, 4) =~= wx + (wy + wz + rest));
                assert(rest_of(s, 6) =~= wy + (wz + rest));
                assert(rest_of(s, 8) =~= wz + rest);
                assert(((x as i64) as int) as i16 == x);
                assert(((y as i64) as int) as i16 == y);
                assert(((z as i64) as int) as i16 == z);
            },
            None => {
                signed_round_trip(self.data as i64, 4, rest);
                assert(rest_of(s, 0) =~= wd + rest);
            },
        }
    }

    fn read_from(buf: &[u8], pos: usize) -> (r: Result<(Self, usize), DecodeError>) {
        let (d, after_data) = read_signed(buf, pos, 4)?;
        if d == 0 {
            return Ok((ObjectData { data: 0, velocity: None }, after_data));
        }
        let (x, after_x) = read_signed(buf, after_data, 2)?;
        let (y, after_y) = read_signed(buf, after_x, 2)?;
        let (z, end) = read_signed(buf, after_y, 2)?;
        Ok(
            (
                ObjectData {
                    data: #[verifier::truncate] (d as i32),
                    velocity: Some(
                        (
                            #[verifier::truncate] (x as i16),
                            #[verifier::truncate] (y as i16),
                            #[verifier::truncate] (z as i16),
                        ),
                    ),
                },
                end,
            ),
        )
    }

    fn write_to(&self, out: &mut Vec<u8>) {
        write_signed(out, self.data as i64, 4);
        match self.velocity {
            Some((x, y, z)) => {
                write_signed(out, x as i64, 2);
                write_signed(out, y as i64, 2);
                write_signed(out, z as i64, 2);
            },
            None => {},
        }
        assert(out@ =~= old(out)@ + self.spec_wire());
    }
}

/// An inventory slot: an item id, and for a non-empty slot its count, its
/// damage and its NBT data, kept as the gzip-compressed bytes the wire holds.
#[derive(Debug, Clone)]
pub struct Slot {
    pub item_id: i16,
    pub item_count: Option<u8>,
    pub item_damage: Option<i16>,
    pub data: Option<Vec<u8>>,
}

/// A `Slot` with its NBT bytes seen as a sequence.
pub struct SlotView {
    pub item_id: i16,
    pub item_count: Option<u8>,
    pub item_damage: Option<i16>,
    pub data: Option<Seq<u8>>,
}

impl View for Slot {
    type V = SlotView;

    open spec fn view(&self) -> SlotView {
        SlotView {
            item_id: self.item_id,
            item_count: self.item_count,
            item_damage: self.item_damage,
            data: match self.data {
                Some(b) => Some(b@),
                None => None,
            },
        }
    }
}

/// A slot at offset `pos` of `s` and the offset after it: an `i16` item id;
/// unless it is -1, a `u8` count, an `i16` damage and an `i16` NBT length
/// followed by that many bytes (-1: no NBT).
#[verifier::opaque]
pub open spec fn slot_read(s: Seq<u8>, pos: int) -> Result<(SlotView, int), DecodeError> {
    match signed_at(s, pos, 2) {
        Err(e) => Err(e),
        Ok(id) => if id == -1 {
            Ok((SlotView { item_id: -1i16, item_count: None, item_damage: None, data: None }, pos + 2))
        } else {
            match (unsigned_at(s, pos + 2, 1), signed_at(s, pos + 3, 2), signed_at(s, pos + 5, 2)) {
                (Ok(c), Ok(d), Ok(n)) => if n == -1 {
                    Ok((
                        SlotView { item_id: id as i16, item_count: Some(c as u8), item_damage: Some(d as i16), data: None },
                        pos + 7,
                    ))
                } else if n < 0 {
                    Err(DecodeError::InvalidLength)
                } else if pos + 7 + n > s.len() {
                    Err(DecodeError::ShortRead)
                } else {
                    Ok((
                        SlotView {
                            item_id: id as i16,
                            item_count: Some(c as u8),
                            item_damage: Some(d as i16),
                            data: Some(s.subrange(pos + 7, pos + 7 + n)),
                        },
                        pos + 7 + n,
                    ))
                },
                (Err(e), _, _) => Err(e),
                (_, Err(e), _) => Err(e),
                (_, _, Err(e)) => Err(e),
            }
        },
    }
}

/// Whether a slot can be written so that it reads back: an empty slot (-1)
/// carries nothing else, any other has a count and a damage, and its NBT
/// fits an `i16` length.
pub open spec fn slot_fits(v: SlotView) -> bool {
    if v.item_id == -1 {
        v.item_count is None && v.item_damage is None && v.data is None
    } else {
        v.item_count is Some && v.item_damage is Some && match v.data {
            Some(b) => b.len() <= 0x7fff,
            None => true,
        }
    }
}

/// What `write_slot` emits: the fields in wire order, an absent count or
/// damage as zero, absent NBT as length -1.
pub open spec fn slot_wire(v: SlotView) -> Seq<u8> {
    signed_wire(v.item_id as i64, 2) + if v.item_id == -1 {
        Seq::empty()
    } else {
        signed_wire(
            match v.item_count {
                Some(c) => c as i64,
                None => 0,
            },
            1,
        ) + signed_wire(
            match v.item_damage {
                Some(d) => d as i64,
                None => 0,
            },
            2,
        ) + match v.data {
            Some(b) => signed_wire(b.len() as i64, 2) + b,
            None => signed_wire(-1i64, 2),
        }
    }
}

/// Reads a slot at `pos`.
pub fn read_slot(buf: &[u8], pos: usize) -> (r: Result<(Slot, usize), DecodeError>)
    requires
        pos <= buf@.len(),
    ensures
        r matches Ok((v, end)) ==> pos <= end <= buf@.len() && slot_read(buf@, pos as int) == Ok::<
            (SlotView, int),
            DecodeError,
        >((v@, end as int)),
        r matches Err(e) ==> slot_read(buf@, pos as int) == Err::<(SlotView, int), DecodeError>(e),
{
    reveal(slot_read);
    let (id, after_id) = read_signed(buf, pos, 2)?;
    if id == -1 {
        return Ok((Slot { item_id: -1, item_count: None, item_damage: None, data: None }, after_id));
    }
    let (c, after_count) = read_uint(buf, after_id, 1)?;
    let (d, after_damage) = read_signed(buf, after_count, 2)?;
    let (n, after_len) = read_signed(buf, after_damage, 2)?;
    let item_id = #[verifier::truncate] (id as i16);
    let item_count = Some(#[verifier::truncate] (c as u8));
    let item_damage = Some(#[verifier::truncate] (d as i16));
    if n == -1 {
        return Ok((Slot { item_id, item_count, item_damage, data: None }, after_len));
    }
    if n < 0 {
        return Err(DecodeError::InvalidLength);
    }
    proof {
        lemma_byte_bound_small();
    }
    assert(n < 0x8000);
    if (n as usize) > buf.len() - after_len {
        return Err(DecodeError::ShortRead);
    }
    let end = after_len + n as usize;
    let data = copy_range(buf, after_len, end);
    assert(after_len == pos + 7);
    assert(data@ == buf@.subrange(pos + 7, pos + 7 + n));
    let r = Slot { item_id, item_count, item_damage, data: Some(data) };
    assert(r@ == (SlotView {
        item_id: (id as int) as i16,
        item_count: Some((c as int) as u8),
        item_damage: Some((d as int) as i16),
        data: Some(buf@.subrange(pos + 7, pos + 7 + n)),
    }));
    Ok((r, end))
}

/// Appends a slot.
pub fn write_slot(out: &mut Vec<u8>, v: &Slot)
    ensures
        final(out)@ == old(out)@ + slot_wire(v@),
{
    write_signed(out, v.item_id as i64, 2);
    if v.item_id != -1 {
        let c: i64 = match v.item_count {
            Some(c) => c as i64,
            None => 0,
        };
        let d: i64 = match v.item_damage {
            Some(d) => d as i64,
            None => 0,
        };
        write_signed(out, c, 1);
        write_signed(out, d, 2);
        match &v.data {
            Some(b) => {
                write_signed(out, #[verifier::truncate] (b.len() as i64), 2);
                append_bytes(out, b.as_slice());
            },
            None => write_signed(out, -1, 2),
        }
    }
    assert(out@ =~= old(out)@ + slot_wire(v@));
}

/// One value of an entity's metadata, by its wire type; a float is kept as
/// its 32 bits.
#[derive(Debug, Clone)]
pub enum MetadataField {
    Byte(u8),
    Short(i16),
    Int(i32),
    Float(u32),
    Str(String),
    Slot(Slot),
}

/// A `MetadataField` with its text and slot seen through their views.
pub enum MetadataView {
    Byte(u8),
    Short(i16),
    Int(i32),
    Float(u32),
    Str(Seq<char>),
    Slot(SlotView),
}

impl View for MetadataField {
    type V = MetadataView;

    open spec fn view(&self) -> MetadataView {
        match self {
            MetadataField::Byte(v) => MetadataView::Byte(*v),
            MetadataField::Short(v) => MetadataView::Short(*v),
            MetadataField::Int(v) => MetadataView::Int(*v),
            MetadataField::Float(v) => MetadataView::Float(*v),
            MetadataField::Str(t) => MetadataView::Str(t@),
            MetadataField::Slot(s) => MetadataView::Slot(s@),
        }
    }
}

/// The wire type number of a metadata value.
pub open spec fn metadata_type(v: MetadataView) -> u8 {
    match v {
        MetadataView::Byte(_) => 0,
        MetadataView::Short(_) => 1,
        MetadataView::Int(_) => 2,
        MetadataView::Float(_) => 3,
        MetadataView::Str(_) => 4,
        MetadataView::Slot(_) => 5,
    }
}

impl MetadataField {
    /// The wire type number of this value.
    pub fn get_type(&self) -> (r: u8)
        ensures
            r == metadata_type(self@),
    {
        match self {
            MetadataField::Byte(_) => 0,
            MetadataField::Short(_) => 1,
            MetadataField::Int(_) => 2,
            MetadataField::Float(_) => 3,
            MetadataField::Str(_) => 4,
            MetadataField::Slot(_) => 5,
        }
    }
}

/// One metadata entry: its index (five bits) and its value.
#[derive(Debug, Clone)]
pub struct MetaEntry {
    pub index: u8,
    pub value: MetadataField,
}

pub struct MetaEntryView {
    pub index: u8,
    pub value: MetadataView,
}

impl View for MetaEntry {
    type V = MetaEntryView;

    open spec fn view(&self) -> MetaEntryView {
        MetaEntryView { index: self.index, value: self.value@ }
    }
}

/// An entity's metadata: the entries in the order the wire holds them.
#[derive(Debug, Clone)]
pub struct EntityMeta {
    pub entries: Vec<MetaEntry>,
}

/// The views of a sequence of entries.
pub open spec fn entries_view(es: Seq<MetaEntry>) -> Seq<MetaEntryView> {
    es.map_values(|e: MetaEntry| e@)
}

/// A metadata value of wire type `kind` at offset `pos` of `s`.
pub open spec fn metadata_value_at(kind: u8, s: Seq<u8>, pos: int) -> Result<(MetadataView, int), DecodeError> {
    if kind == 0 {
        match unsigned_at(s, pos, 1) {
            Ok(v) => Ok((MetadataView::Byte(v as u8), pos + 1)),
            Err(e) => Err(e),
        }
    } else if kind == 1 {
        match signed_at(s, pos, 2) {
            Ok(v) => Ok((MetadataView::Short(v as i16), pos + 2)),
            Err(e) => Err(e),
        }
    } else if kind == 2 {
        match signed_at(s, pos, 4) {
            Ok(v) => Ok((MetadataView::Int(v as i32), pos + 4)),
            Err(e) => Err(e),
        }
    } else if kind == 3 {
        match unsigned_at(s, pos, 4) {
            Ok(v) => Ok((MetadataView::Float(v as u32), pos + 4)),
            Err(e) => Err(e),
        }
    } else if kind == 4 {
        match varstring_read(rest_of(s, pos)) {
            Ok((t, n)) => Ok((MetadataView::Str(t), pos + n)),
            Err(e) => Err(e),
        }
    } else if kind == 5 {
        match slot_read(s, pos) {
            Ok((v, p)) => Ok((MetadataView::Slot(v), p)),
            Err(e) => Err(e),
        }
    } else {
        Err(DecodeError::InvalidDiscriminant)
    }
}

/// Metadata entries from `pos` on, at most `left` more, appended to `acc`:
/// each starts with a byte holding the type (high three bits) and the index
/// (low five bits); the byte 0x7f ends the list.
pub open spec fn metadata_at(s: Seq<u8>, pos: int, left: nat, acc: Seq<MetaEntryView>) -> Result<(Seq<MetaEntryView>, int), DecodeError>
    decreases left,
{
    if left == 0 {
        Ok((acc, pos))
    } else {
        match unsigned_at(s, pos, 1) {
            Err(e) => Err(e),
            Ok(t) => {
                let tb = t as u8;
                if tb == 0x7f {
                    Ok((acc, pos + 1))
                } else {
                    match metadata_value_at(tb >> 5u8, s, pos + 1) {
                        Ok((v, p)) => if pos <= p <= s.len() {
                            metadata_at(s, p, (left - 1) as nat, acc.push(MetaEntryView { index: tb & 0x1f, value: v }))
                        } else {
                            Err(DecodeError::ShortRead)
                        },
                        Err(e) => Err(e),
                    }
                }
            },
        }
    }
}

/// Entity metadata at offset `pos` of `s`: at most 256 entries.
#[verifier::opaque]
pub open spec fn entity_meta_read(s: Seq<u8>, pos: int) -> Result<(Seq<MetaEntryView>, int), DecodeError> {
    metadata_at(s, pos, 256, Seq::empty())
}

fn read_metadata_value(kind: u8, buf: &[u8], pos: usize) -> (r: Result<(MetadataField, usize), DecodeError>)
    requires
        pos <= buf@.len(),
    ensures
        r matches Ok((v, end)) ==> pos <= end <= buf@.len() && metadata_value_at(kind, buf@, pos as int)
            == Ok::<(MetadataView, int), DecodeError>((v@, end as int)),
        r matches Err(e) ==> metadata_value_at(kind, buf@, pos as int) == Err::<(MetadataView, int), DecodeError>(e),
{
    if kind == 0 {
        let (v, end) = read_uint(buf, pos, 1)?;
        Ok((MetadataField::Byte(#[verifier::truncate] (v as u8)), end))
    } else if kind == 1 {
        let (v, end) = read_signed(buf, pos, 2)?;
        Ok((MetadataField::Short(#[verifier::truncate] (v as i16)), end))
    } else if kind == 2 {
        let (v, end) = read_signed(buf, pos, 4)?;
        Ok((MetadataField::Int(#[verifier::truncate] (v as i32)), end))
    } else if kind == 3 {
        let (v, end) = read_uint(buf, pos, 4)?;
        Ok((MetadataField::Float(#[verifier::truncate] (v as u32)), end))
    } else if kind == 4 {
        let (t, end) = read_varstring(buf, pos)?;
        Ok((MetadataField::Str(t), end))
    } else if kind == 5 {
        let (v, end) = read_slot(buf, pos)?;
        let ghost sv = v@;
        let r = MetadataField::Slot(v);
        assert(r@ == MetadataView::Slot(sv));
        Ok((r, end))
    } else {
        Err(DecodeError::InvalidDiscriminant)
    }
}

impl EntityMeta {
    /// Reads entity metadata at `pos`: entries until the end byte 0x7f, at
    /// most 256 of them.
    pub fn read_from(buf: &[u8], pos: usize) -> (r: Result<(EntityMeta, usize), DecodeError>)
        requires
            pos <= buf@.len(),
        ensures
            r matches Ok((m, end)) ==> pos <= end <= buf@.len() && entity_meta_read(buf@, pos as int)
                == Ok::<(Seq<MetaEntryView>, int), DecodeError>((entries_view(m.entries@), end as int)),
            r matches Err(e) ==> entity_meta_read(buf@, pos as int) == Err::<(Seq<MetaEntryView>, int), DecodeError>(e),
    {
        reveal(entity_meta_read);
        let mut entries: Vec<MetaEntry> = Vec::new();
        let mut p = pos;
        let mut left: usize = 256;
        assert(entries_view(entries@) =~= Seq::<MetaEntryView>::empty());
        while left > 0
            invariant
                pos <= p <= buf@.len(),
                left <= 256,
                entity_meta_read(buf@, pos as int) == metadata_at(buf@, pos as int, 256, Seq::empty()),
                metadata_at(buf@, pos as int, 256, Seq::empty()) == metadata_at(buf@, p as int, left as nat, entries_view(entries@)),
            decreases left,
        {
            let (t, after) = read_uint(buf, p, 1)?;
            let tb = #[verifier::truncate] (t as u8);
            if tb == 0x7f {
                return Ok((EntityMeta { entries }, after));
            }
            let (v, q) = read_metadata_value(tb >> 5u8, buf, after)?;
            let ghost before = entries_view(entries@);
            let ghost vv = v@;
            entries.push(MetaEntry { index: tb & 0x1f, value: v });
            assert(entries_view(entries@) =~= before.push(MetaEntryView { index: tb & 0x1f, value: vv }));
            p = q;
            left = left - 1;
        }
        Ok((EntityMeta { entries }, p))
    }
}

/// The bytes of one metadata value.
pub open spec fn metadata_value_wire(v: MetadataView) -> Seq<u8> {
    match v {
        MetadataView::Byte(b) => signed_wire(b as i64, 1),
        MetadataView::Short(x) => signed_wire(x as i64, 2),
        MetadataView::Int(x) => signed_wire(x as i64, 4),
        MetadataView::Float(f) => signed_wire(f as i64, 4),
        MetadataView::Str(t) => varstring_wire(t),
        MetadataView::Slot(s) => slot_wire(s),
    }
}

/// The bytes of one entry: the type and index byte, then the value.
pub open spec fn meta_entry_wire(e: MetaEntryView) -> Seq<u8> {
    seq![(e.index & 0x1f) | (metadata_type(e.value) << 5u8)] + metadata_value_wire(e.value)
}

/// The bytes of a list of entries, in order.
pub open spec fn meta_entries_wire(es: Seq<MetaEntryView>) -> Seq<u8>
    decreases es.len(),
{
    if es.len() == 0 {
        Seq::empty()
    } else {
        meta_entries_wire(es.drop_last()) + meta_entry_wire(es.last())
    }
}

/// What `EntityMeta::write_to` emits: every entry, then the end byte 0x7f.
pub open spec fn entity_meta_wire(es: Seq<MetaEntryView>) -> Seq<u8> {
    meta_entries_wire(es) + seq![0x7fu8]
}

/// Whether every entry's text fits its length prefix and every slot is well
/// formed.
pub open spec fn entity_meta_fits(es: Seq<MetaEntryView>) -> bool {
    forall|i: int|
        0 <= i < es.len() ==> match (#[trigger] es[i]).value {
            MetadataView::Str(t) => encode_utf8(t).len() <= i32::MAX,
            MetadataView::Slot(s) => slot_fits(s),
            _ => true,
        }
}

fn write_metadata_value(out: &mut Vec<u8>, v: &MetadataField)
    requires
        match v@ {
            MetadataView::Str(t) => encode_utf8(t).len() <= i32::MAX,
            _ => true,
        },
    ensures
        final(out)@ == old(out)@ + metadata_value_wire(v@),
{
    match v {
        MetadataField::Byte(b) => write_signed(out, *b as i64, 1),
        MetadataField::Short(x) => write_signed(out, *x as i64, 2),
        MetadataField::Int(x) => write_signed(out, *x as i64, 4),
        MetadataField::Float(f) => write_signed(out, *f as i64, 4),
        MetadataField::Str(t) => write_varstring(out, t.as_str()),
        MetadataField::Slot(s) => write_slot(out, s),
    }
}

impl EntityMeta {
    /// Appends every entry, then the end byte 0x7f.
    pub fn write_to(&self, out: &mut Vec<u8>)
        requires
            entity_meta_fits(entries_view(self.entries@)),
        ensures
            final(out)@ == old(out)@ + entity_meta_wire(entries_view(self.entries@)),
    {
        let ghost es = entries_view(self.entries@);
        let mut i: usize = 0;
        while i < self.entries.len()
            invariant
                i <= self.entries@.len(),
                es == entries_view(self.entries@),
                entity_meta_fits(es),
                out@ == old(out)@ + meta_entries_wire(es.subrange(0, i as int)),
            decreases self.entries@.len() - i,
        {
            let e = &self.entries[i];
            assert(es[i as int] == e@);
            let kind = e.value.get_type();
            out.push((e.index & 0x1f) | (kind << 5u8));
            write_metadata_value(out, &e.value);
            assert(es.subrange(0, i + 1).drop_last() =~= es.subrange(0, i as int));
            assert(out@ =~= old(out)@ + meta_entries_wire(es.subrange(0, i + 1)));
            i = i + 1;
        }
        assert(es.subrange(0, es.len() as int) =~= es);
        out.push(0x7f);
        assert(out@ =~= old(out)@ + entity_meta_wire(es));
    }
}

/// Checks that every entry's text fits its length prefix and every slot is
/// well formed.
pub fn check_entity_meta_fits(m: &EntityMeta) -> (r: bool)
    ensures
        r == entity_meta_fits(entries_view(m.entries@)),
{
    let ghost es = entries_view(m.entries@);
    let mut i: usize = 0;
    while i < m.entries.len()
        invariant
            i <= m.entries@.len(),
            es == entries_view(m.entries@),
            forall|j: int|
                0 <= j < i ==> match (#[trigger] es[j]).value {
                    MetadataView::Str(t) => encode_utf8(t).len() <= i32::MAX,
                    MetadataView::Slot(s) => slot_fits(s),
                    _ => true,
                },
        decreases m.entries@.len() - i,
    {
        assert(es[i as int] == m.entries@[i as int]@);
        match &m.entries[i].value {
            MetadataField::Str(t) => {
                let text = t.as_str();
                let n = text.as_bytes().len();
                assert(text@ == t@);
                assert(text.spec_bytes() == encode_utf8(text@));
                if n > 0x7fff_ffff {
                    return false;
                }
            },
            MetadataField::Slot(s) => {
                if !slot_fits_exec(s) {
                    return false;
                }
            },
            _ => {},
        }
        i = i + 1;
    }
    true
}

/// Whether a slot is well formed.
pub fn slot_fits_exec(v: &Slot) -> (r: bool)
    ensures
        r == slot_fits(v@),
{
    if v.item_id == -1 {
        v.item_count.is_none() && v.item_damage.is_none() && v.data.is_none()
    } else {
        v.item_count.is_some() && v.item_damage.is_some() && match &v.data {
            Some(b) => b.len() <= 0x7fff,
            None => true,
        }
    }
}

} // verus!

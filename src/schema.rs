use vstd::prelude::*;

use vstd::string::StringSliceAdditionalSpecFns;
use vstd::utf8::encode_utf8;

use crate::error::DecodeError;
use crate::types::{
    position_read, position_wire, read_slot, slot_fits, slot_fits_exec, slot_read, check_entity_meta_fits, entity_meta_fits, entity_meta_read, entity_meta_wire, entries_view, EntityMeta, MetaEntryView, slot_wire, write_slot, Serializable, Slot, SlotView, BlockChangeRecord_47, BlockChangeRecord_5, ChunkMetadata,
    ChunkMetadata_47, ExplosionRecord_5, Position,
};
use crate::varint::{
    read_varint, read_varlong, rest_of, varint_read, varint_wire, varlong_read, varlong_wire,
    write_varint, write_varlong,
};
use crate::wire::{
    append_bytes, be_bytes, copy_range, read_signed, read_uint, read_varstring, signed_at,
    signed_wire, unsigned_at, varstring_read, varstring_wire, write_signed, write_uint,
    write_varstring,
};

verus! {

/// Where the element count of a sequence field comes from.
#[derive(Debug, Clone, Copy, PartialEq, Eq, Structural)]
pub enum CountKind {
    /// A signed byte just before the elements.
    I8,
    /// A big-endian `i16` just before the elements.
    I16,
    /// A big-endian `i32` just before the elements.
    I32,
    /// A varint just before the elements.
    VarInt,
    /// The integer value of an earlier field of the same packet.
    Field(usize),
    /// Every byte left in the payload (byte sequences only).
    Rest,
}

/// The element type of a record sequence.
#[derive(Debug, Clone, Copy, PartialEq, Eq, Structural)]
pub enum RecordKind {
    I32,
    VarInt,
    Explosion,
    ChunkMeta,
    ChunkMeta47,
    BlockChange5,
    BlockChange47,
}

/// The wire shape of one field.
#[derive(Debug, Clone, Copy, PartialEq, Eq, Structural)]
pub enum FieldKind {
    Bool,
    I8,
    U8,
    I16,
    U16,
    I32,
    I64,
    U128,
    /// An IEEE single, kept as its 32 bits.
    F32,
    /// An IEEE double, kept as its 64 bits.
    F64,
    VarInt,
    VarLong,
    Str,
    /// A position packed into 64 bits with the version's layout.
    Position,
    /// Legacy position: `i32`, `u8`, `i32`.
    PositionIBI,
    /// Legacy position: `i32`, `i16`, `i32`.
    PositionISI,
    /// Legacy position: three `i32`.
    PositionIII,
    /// An inventory slot.
    Slot,
    /// Entity metadata entries up to the end byte.
    Meta,
    Bytes(CountKind),
    Array(CountKind, RecordKind),
}

/// A predicate over an earlier integer field of the same packet.
#[derive(Debug, Clone, Copy, PartialEq, Eq, Structural)]
pub enum Cond {
    /// The field equals `a` or `b`.
    OneOf { field: usize, a: i64, b: i64 },
    /// The field differs from `a`.
    NotEq { field: usize, a: i64 },
}

/// When a field is on the wire, and what it holds.
#[derive(Debug, Clone, Copy, PartialEq, Eq, Structural)]
pub enum Rule {
    /// Always present.
    Always,
    /// Present only when the condition holds of the fields before it.
    When(Cond),
    /// The element count of the later field with this index: written from
    /// that field's length, whatever value it holds.
    CountFor(usize),
}

/// One field of a packet layout.
#[derive(Debug, Clone, Copy, PartialEq, Eq, Structural)]
pub struct FieldSpec {
    pub kind: FieldKind,
    pub rule: Rule,
}

/// One element of a record sequence.
#[derive(Debug, Clone, Copy, PartialEq, Eq, Structural)]
pub enum Record {
    I32(i32),
    VarInt(i32),
    Explosion(ExplosionRecord_5),
    ChunkMeta(ChunkMetadata),
    ChunkMeta47(ChunkMetadata_47),
    BlockChange5(BlockChangeRecord_5),
    BlockChange47(BlockChangeRecord_47),
}

/// The value of one field. Every integer kind up to 64 bits, floats as their
/// bits, is an `Int`; a conditional field that is not on the wire is `Absent`.
#[derive(Debug, Clone)]
pub enum Value {
    Bool(bool),
    Int(i64),
    U128(u128),
    Str(String),
    Position(Position),
    Slot(Slot),
    Meta(EntityMeta),
    Bytes(Vec<u8>),
    Array(Vec<Record>),
    Absent,
}

/// A `Value` with its strings and vectors seen as sequences.
pub enum ValueView {
    Bool(bool),
    Int(i64),
    U128(u128),
    Str(Seq<char>),
    Position(Position),
    Slot(SlotView),
    Meta(Seq<MetaEntryView>),
    Bytes(Seq<u8>),
    Array(Seq<Record>),
    Absent,
}

impl View for Value {
    type V = ValueView;

    open spec fn view(&self) -> ValueView {
        match self {
            Value::Bool(b) => ValueView::Bool(*b),
            Value::Int(i) => ValueView::Int(*i),
            Value::U128(u) => ValueView::U128(*u),
            Value::Str(s) => ValueView::Str(s@),
            Value::Position(p) => ValueView::Position(*p),
            Value::Slot(v) => ValueView::Slot(v@),
            Value::Meta(m) => ValueView::Meta(entries_view(m.entries@)),
            Value::Bytes(b) => ValueView::Bytes(b@),
            Value::Array(a) => ValueView::Array(a@),
            Value::Absent => ValueView::Absent,
        }
    }
}

/// The views of a sequence of values.
pub open spec fn views(vals: Seq<Value>) -> Seq<ValueView> {
    vals.map_values(|v: Value| v@)
}

/// Width and signedness of the fixed-width integer kinds.
pub open spec fn int_width(kind: FieldKind) -> Option<(nat, bool)> {
    match kind {
        FieldKind::I8 => Some((1nat, true)),
        FieldKind::U8 => Some((1nat, false)),
        FieldKind::I16 => Some((2nat, true)),
        FieldKind::U16 => Some((2nat, false)),
        FieldKind::I32 => Some((4nat, true)),
        FieldKind::F32 => Some((4nat, false)),
        FieldKind::I64 => Some((8nat, true)),
        FieldKind::F64 => Some((8nat, true)),
        _ => None,
    }
}

/// The integer a field holds, if it holds one.
pub open spec fn int_value(v: ValueView) -> Option<int> {
    match v {
        ValueView::Int(i) => Some(i as int),
        _ => None,
    }
}

/// The value of field `i`, `Absent` past the end.
pub open spec fn value_at(vals: Seq<ValueView>, i: int) -> ValueView {
    if 0 <= i < vals.len() {
        vals[i]
    } else {
        ValueView::Absent
    }
}

/// Whether `c` holds of the fields read so far.
pub open spec fn cond_holds(c: Cond, vals: Seq<ValueView>) -> bool {
    match c {
        Cond::OneOf { field, a, b } => match int_value(value_at(vals, field as int)) {
            Some(v) => v == a || v == b,
            None => false,
        },
        Cond::NotEq { field, a } => match int_value(value_at(vals, field as int)) {
            Some(v) => v != a,
            None => false,
        },
    }
}

/// A fixed-width integer at `pos`, widened to `i64`.
pub open spec fn fixed_int_at(s: Seq<u8>, pos: int, n: nat, signed: bool) -> Result<(i64, int), DecodeError> {
    if signed {
        match signed_at(s, pos, n) {
            Ok(v) => Ok((v as i64, pos + n)),
            Err(e) => Err(e),
        }
    } else {
        match unsigned_at(s, pos, n) {
            Ok(v) => Ok((v as i64, pos + n)),
            Err(e) => Err(e),
        }
    }
}

/// The element count at `pos` and the offset of the first element.
pub open spec fn count_at(count: CountKind, vals: Seq<ValueView>, s: Seq<u8>, pos: int) -> Result<(int, int), DecodeError> {
    let r: Result<(int, int), DecodeError> = match count {
        CountKind::I8 => match fixed_int_at(s, pos, 1, true) {
            Ok((v, p)) => Ok((v as int, p)),
            Err(e) => Err(e),
        },
        CountKind::I16 => match fixed_int_at(s, pos, 2, true) {
            Ok((v, p)) => Ok((v as int, p)),
            Err(e) => Err(e),
        },
        CountKind::I32 => match fixed_int_at(s, pos, 4, true) {
            Ok((v, p)) => Ok((v as int, p)),
            Err(e) => Err(e),
        },
        CountKind::VarInt => match varint_read(rest_of(s, pos)) {
            Some((v, n)) => Ok((v as int, pos + n)),
            None => Err(DecodeError::ShortRead),
        },
        CountKind::Field(i) => match int_value(value_at(vals, i as int)) {
            Some(v) => Ok((v, pos)),
            None => Err(DecodeError::InvalidLength),
        },
        CountKind::Rest => Ok((s.len() - pos, pos)),
    };
    match r {
        Ok((n, p)) => if n < 0 {
            Err(DecodeError::InvalidLength)
        } else {
            Ok((n, p))
        },
        Err(e) => Err(e),
    }
}

/// One record of kind `kind` at `pos`.
pub open spec fn record_at(kind: RecordKind, s: Seq<u8>, pos: int) -> Result<(Record, int), DecodeError> {
    match kind {
        RecordKind::I32 => match fixed_int_at(s, pos, 4, true) {
            Ok((v, p)) => Ok((Record::I32(v as i32), p)),
            Err(e) => Err(e),
        },
        RecordKind::VarInt => match varint_read(rest_of(s, pos)) {
            Some((v, n)) => Ok((Record::VarInt(v), pos + n)),
            None => Err(DecodeError::ShortRead),
        },
        RecordKind::Explosion => match ExplosionRecord_5::spec_read(s, pos) {
            Ok((r, p)) => Ok((Record::Explosion(r), p)),
            Err(e) => Err(e),
        },
        RecordKind::ChunkMeta => match ChunkMetadata::spec_read(s, pos) {
            Ok((r, p)) => Ok((Record::ChunkMeta(r), p)),
            Err(e) => Err(e),
        },
        RecordKind::ChunkMeta47 => match ChunkMetadata_47::spec_read(s, pos) {
            Ok((r, p)) => Ok((Record::ChunkMeta47(r), p)),
            Err(e) => Err(e),
        },
        RecordKind::BlockChange5 => match BlockChangeRecord_5::spec_read(s, pos) {
            Ok((r, p)) => Ok((Record::BlockChange5(r), p)),
            Err(e) => Err(e),
        },
        RecordKind::BlockChange47 => match BlockChangeRecord_47::spec_read(s, pos) {
            Ok((r, p)) => Ok((Record::BlockChange47(r), p)),
            Err(e) => Err(e),
        },
    }
}

/// `n` records of kind `kind` from `pos` on, appended to `acc`.
pub open spec fn records_at(kind: RecordKind, s: Seq<u8>, pos: int, n: nat, acc: Seq<Record>) -> Result<(Seq<Record>, int), DecodeError>
    decreases n,
{
    if n == 0 {
        Ok((acc, pos))
    } else {
        match record_at(kind, s, pos) {
            Ok((r, p)) => if p <= s.len() {
                records_at(kind, s, p, (n - 1) as nat, acc.push(r))
            } else {
                Err(DecodeError::ShortRead)
            },
            Err(e) => Err(e),
        }
    }
}

/// A legacy position with a `y` of `yw` bytes at `pos`.
pub open spec fn legacy_position_at(s: Seq<u8>, pos: int, yw: nat, ysigned: bool) -> Result<(ValueView, int), DecodeError> {
    match (fixed_int_at(s, pos, 4, true), fixed_int_at(s, pos + 4, yw, ysigned), fixed_int_at(s, pos + 4 + yw, 4, true)) {
        (Ok((x, _)), Ok((y, _)), Ok((z, p))) => Ok((ValueView::Position(Position { x: x as i32, y: y as i32, z: z as i32 }), p)),
        (Err(e), _, _) => Err(e),
        (_, Err(e), _) => Err(e),
        (_, _, Err(e)) => Err(e),
    }
}

/// A field of kind `kind` at `pos`, given the fields before it.
pub open spec fn kind_at(kind: FieldKind, vals: Seq<ValueView>, s: Seq<u8>, pos: int, version: i32) -> Result<(ValueView, int), DecodeError> {
    match kind {
        FieldKind::Bool => match unsigned_at(s, pos, 1) {
            Ok(v) => Ok((ValueView::Bool(v != 0), pos + 1)),
            Err(e) => Err(e),
        },
        FieldKind::U128 => match unsigned_at(s, pos, 16) {
            Ok(v) => Ok((ValueView::U128(v as u128), pos + 16)),
            Err(e) => Err(e),
        },
        FieldKind::VarInt => match varint_read(rest_of(s, pos)) {
            Some((v, n)) => Ok((ValueView::Int(v as i64), pos + n)),
            None => Err(DecodeError::ShortRead),
        },
        FieldKind::VarLong => match varlong_read(rest_of(s, pos)) {
            Some((v, n)) => Ok((ValueView::Int(v), pos + n)),
            None => Err(DecodeError::ShortRead),
        },
        FieldKind::Meta => match entity_meta_read(s, pos) {
            Ok((es, p)) => Ok((ValueView::Meta(es), p)),
            Err(e) => Err(e),
        },
        FieldKind::Slot => match slot_read(s, pos) {
            Ok((v, p)) => Ok((ValueView::Slot(v), p)),
            Err(e) => Err(e),
        },
        FieldKind::Str => match varstring_read(rest_of(s, pos)) {
            Ok((t, n)) => Ok((ValueView::Str(t), pos + n)),
            Err(e) => Err(e),
        },
        FieldKind::Position => match position_read(rest_of(s, pos), version) {
            Ok((p, n)) => Ok((ValueView::Position(p), pos + n)),
            Err(e) => Err(e),
        },
        FieldKind::PositionIBI => legacy_position_at(s, pos, 1, false),
        FieldKind::PositionISI => legacy_position_at(s, pos, 2, true),
        FieldKind::PositionIII => legacy_position_at(s, pos, 4, true),
        FieldKind::Bytes(count) => match count_at(count, vals, s, pos) {
            Ok((n, p)) => if p + n > s.len() {
                Err(DecodeError::ShortRead)
            } else {
                Ok((ValueView::Bytes(s.subrange(p, p + n)), p + n))
            },
            Err(e) => Err(e),
        },
        FieldKind::Array(count, rec) => if count == CountKind::Rest {
            Err(DecodeError::InvalidLength)
        } else {
            match count_at(count, vals, s, pos) {
                Ok((n, p)) => match records_at(rec, s, p, n as nat, Seq::empty()) {
                    Ok((rs, q)) => Ok((ValueView::Array(rs), q)),
                    Err(e) => Err(e),
                },
                Err(e) => Err(e),
            }
        },
        _ => match int_width(kind) {
            Some((w, signed)) => match fixed_int_at(s, pos, w, signed) {
                Ok((v, p)) => Ok((ValueView::Int(v), p)),
                Err(e) => Err(e),
            },
            None => Err(DecodeError::InvalidDiscriminant),
        },
    }
}

/// Field `f` at `pos`, given the fields before it: `Absent` without reading
/// when its condition fails.
pub open spec fn field_at(f: FieldSpec, vals: Seq<ValueView>, s: Seq<u8>, pos: int, version: i32) -> Result<(ValueView, int), DecodeError> {
    match f.rule {
        Rule::When(c) => if cond_holds(c, vals) {
            kind_at(f.kind, vals, s, pos, version)
        } else {
            Ok((ValueView::Absent, pos))
        },
        _ => kind_at(f.kind, vals, s, pos, version),
    }
}

/// Fields `i..` of a layout from `pos` on, appended to `vals`.
pub open spec fn fields_from(fields: Seq<FieldSpec>, i: int, vals: Seq<ValueView>, s: Seq<u8>, pos: int, version: i32) -> Result<(Seq<ValueView>, int), DecodeError>
    decreases fields.len() - i,
{
    if i < 0 || i >= fields.len() {
        Ok((vals, pos))
    } else {
        match field_at(fields[i], vals, s, pos, version) {
            Ok((v, p)) => if pos <= p <= s.len() {
                fields_from(fields, i + 1, vals.push(v), s, p, version)
            } else {
                Err(DecodeError::ShortRead)
            },
            Err(e) => Err(e),
        }
    }
}

/// A whole payload read with a layout: the values, in field order, and the
/// number of bytes they took.
pub open spec fn payload_read(fields: Seq<FieldSpec>, s: Seq<u8>, version: i32) -> Result<(Seq<ValueView>, int), DecodeError> {
    fields_from(fields, 0, Seq::empty(), s, 0, version)
}

fn read_fixed_int(buf: &[u8], pos: usize, n: usize, signed: bool) -> (r: Result<(i64, usize), DecodeError>)
    requires
        pos <= buf@.len(),
        1 <= n <= 8,
    ensures
        r matches Ok((v, end)) ==> end <= buf@.len() && fixed_int_at(buf@, pos as int, n as nat, signed)
            == Ok::<(i64, int), DecodeError>((v, end as int)),
        r matches Err(e) ==> fixed_int_at(buf@, pos as int, n as nat, signed) == Err::<(i64, int), DecodeError>(e),
{
    if signed {
        let (v, end) = read_signed(buf, pos, n)?;
        Ok((v, end))
    } else {
        let (u, end) = read_uint(buf, pos, n)?;
        Ok((#[verifier::truncate] (u as i64), end))
    }
}

/// Whether `c` holds of the values read so far.
pub fn cond_holds_exec(c: Cond, vals: &Vec<Value>) -> (r: bool)
    ensures
        r == cond_holds(c, views(vals@)),
{
    let (field, ok_a, ok_b, negate) = match c {
        Cond::OneOf { field, a, b } => (field, a, b, false),
        Cond::NotEq { field, a } => (field, a, a, true),
    };
    if field >= vals.len() {
        return false;
    }
    match &vals[field] {
        Value::Int(v) => if negate {
            *v != ok_a
        } else {
            *v == ok_a || *v == ok_b
        },
        _ => false,
    }
}

fn read_count(count: CountKind, vals: &Vec<Value>, buf: &[u8], pos: usize) -> (r: Result<(u64, usize), DecodeError>)
    requires
        pos <= buf@.len(),
    ensures
        r matches Ok((n, p)) ==> pos <= p <= buf@.len() && count_at(count, views(vals@), buf@, pos as int)
            == Ok::<(int, int), DecodeError>((n as int, p as int)),
        r matches Err(e) ==> count_at(count, views(vals@), buf@, pos as int) == Err::<(int, int), DecodeError>(e),
{
    if count == CountKind::Rest {
        return Ok(((buf.len() - pos) as u64, pos));
    }
    let (n, p): (i64, usize) = match count {
        CountKind::I8 => read_fixed_int(buf, pos, 1, true)?,
        CountKind::I16 => read_fixed_int(buf, pos, 2, true)?,
        CountKind::I32 => read_fixed_int(buf, pos, 4, true)?,
        CountKind::VarInt => {
            let (v, p) = read_varint(buf, pos)?;
            (v as i64, p)
        },
        CountKind::Field(i) => {
            if i >= vals.len() {
                return Err(DecodeError::InvalidLength);
            }
            assert(views(vals@)[i as int] == vals@[i as int]@);
            match &vals[i] {
                Value::Int(v) => (*v, pos),
                _ => {
                    return Err(DecodeError::InvalidLength);
                },
            }
        },
        CountKind::Rest => (0, pos),
    };
    if n < 0 {
        return Err(DecodeError::InvalidLength);
    }
    Ok((n as u64, p))
}

fn read_record(kind: RecordKind, buf: &[u8], pos: usize) -> (r: Result<(Record, usize), DecodeError>)
    requires
        pos <= buf@.len(),
    ensures
        r matches Ok((v, end)) ==> pos <= end <= buf@.len() && record_at(kind, buf@, pos as int)
            == Ok::<(Record, int), DecodeError>((v, end as int)),
        r matches Err(e) ==> record_at(kind, buf@, pos as int) == Err::<(Record, int), DecodeError>(e),
{
    match kind {
        RecordKind::I32 => {
            let (v, p) = read_fixed_int(buf, pos, 4, true)?;
            Ok((Record::I32(#[verifier::truncate] (v as i32)), p))
        },
        RecordKind::VarInt => {
            let (v, p) = read_varint(buf, pos)?;
            Ok((Record::VarInt(v), p))
        },
        RecordKind::Explosion => {
            let (v, p) = ExplosionRecord_5::read_from(buf, pos)?;
            Ok((Record::Explosion(v), p))
        },
        RecordKind::ChunkMeta => {
            let (v, p) = ChunkMetadata::read_from(buf, pos)?;
            Ok((Record::ChunkMeta(v), p))
        },
        RecordKind::ChunkMeta47 => {
            let (v, p) = ChunkMetadata_47::read_from(buf, pos)?;
            Ok((Record::ChunkMeta47(v), p))
        },
        RecordKind::BlockChange5 => {
            let (v, p) = BlockChangeRecord_5::read_from(buf, pos)?;
            Ok((Record::BlockChange5(v), p))
        },
        RecordKind::BlockChange47 => {
            let (v, p) = BlockChangeRecord_47::read_from(buf, pos)?;
            Ok((Record::BlockChange47(v), p))
        },
    }
}

fn read_records(kind: RecordKind, buf: &[u8], pos: usize, n: u64) -> (r: Result<(Vec<Record>, usize), DecodeError>)
    requires
        pos <= buf@.len(),
    ensures
        r matches Ok((v, end)) ==> pos <= end <= buf@.len() && records_at(kind, buf@, pos as int, n as nat, Seq::empty())
            == Ok::<(Seq<Record>, int), DecodeError>((v@, end as int)),
        r matches Err(e) ==> records_at(kind, buf@, pos as int, n as nat, Seq::empty()) == Err::<(Seq<Record>, int), DecodeError>(e),
{
    let mut out: Vec<Record> = Vec::new();
    let mut p = pos;
    let mut k: u64 = 0;
    while k < n
        invariant
            k <= n,
            pos <= p <= buf@.len(),
            records_at(kind, buf@, pos as int, n as nat, Seq::empty()) == records_at(
                kind,
                buf@,
                p as int,
                (n - k) as nat,
                out@,
            ),
        decreases n - k,
    {
        let (rec, q) = read_record(kind, buf, p)?;
        out.push(rec);
        p = q;
        k = k + 1;
    }
    Ok((out, p))
}

fn read_legacy_position(buf: &[u8], pos: usize, yw: usize, ysigned: bool) -> (r: Result<(Value, usize), DecodeError>)
    requires
        pos <= buf@.len(),
        1 <= yw <= 4,
    ensures
        r matches Ok((v, end)) ==> pos <= end <= buf@.len() && legacy_position_at(buf@, pos as int, yw as nat, ysigned)
            == Ok::<(ValueView, int), DecodeError>((v@, end as int)),
        r matches Err(e) ==> legacy_position_at(buf@, pos as int, yw as nat, ysigned) == Err::<(ValueView, int), DecodeError>(e),
{
    let (x, after_first) = read_fixed_int(buf, pos, 4, true)?;
    let (y, after_second) = read_fixed_int(buf, after_first, yw, ysigned)?;
    let (z, after_third) = read_fixed_int(buf, after_second, 4, true)?;
    Ok((
        Value::Position(Position {
            x: #[verifier::truncate] (x as i32),
            y: #[verifier::truncate] (y as i32),
            z: #[verifier::truncate] (z as i32),
        }),
        after_third,
    ))
}

fn read_int_field(kind: FieldKind, buf: &[u8], pos: usize) -> (r: Result<(Value, usize), DecodeError>)
    requires
        pos <= buf@.len(),
    ensures
        r matches Ok((v, end)) ==> pos <= end <= buf@.len() && v is Int && match int_width(kind) {
            Some((w, signed)) => fixed_int_at(buf@, pos as int, w, signed) == Ok::<(i64, int), DecodeError>((v->Int_0, end as int)),
            None => false,
        },
        r matches Err(e) ==> match int_width(kind) {
            Some((w, signed)) => fixed_int_at(buf@, pos as int, w, signed) == Err::<(i64, int), DecodeError>(e),
            None => e == DecodeError::InvalidDiscriminant,
        },
{
    let (w, signed): (usize, bool) = match kind {
        FieldKind::I8 => (1, true),
        FieldKind::U8 => (1, false),
        FieldKind::I16 => (2, true),
        FieldKind::U16 => (2, false),
        FieldKind::I32 => (4, true),
        FieldKind::F32 => (4, false),
        FieldKind::I64 => (8, true),
        FieldKind::F64 => (8, true),
        _ => {
            return Err(DecodeError::InvalidDiscriminant);
        },
    };
    let (v, p) = read_fixed_int(buf, pos, w, signed)?;
    Ok((Value::Int(v), p))
}

#[verifier::rlimit(60)]
fn read_bytes_field(kind: FieldKind, vals: &Vec<Value>, buf: &[u8], pos: usize, version: i32) -> (r: Result<(Value, usize), DecodeError>)
    requires
        pos <= buf@.len(),
        kind is Bytes,
    ensures
        r matches Ok((v, end)) ==> pos <= end <= buf@.len() && kind_at(kind, views(vals@), buf@, pos as int, version)
            == Ok::<(ValueView, int), DecodeError>((v@, end as int)),
        r matches Err(e) ==> kind_at(kind, views(vals@), buf@, pos as int, version) == Err::<(ValueView, int), DecodeError>(e),
{
    let count = match kind {
        FieldKind::Bytes(c) => c,
        _ => CountKind::Rest,
    };
    let (n, p) = read_count(count, vals, buf, pos)?;
    if n > (buf.len() - p) as u64 {
        return Err(DecodeError::ShortRead);
    }
    let end = p + n as usize;
    let bytes = copy_range(buf, p, end);
    Ok((Value::Bytes(bytes), end))
}

#[verifier::rlimit(60)]
fn read_array_field(kind: FieldKind, vals: &Vec<Value>, buf: &[u8], pos: usize, version: i32) -> (r: Result<(Value, usize), DecodeError>)
    requires
        pos <= buf@.len(),
        kind is Array,
    ensures
        r matches Ok((v, end)) ==> pos <= end <= buf@.len() && kind_at(kind, views(vals@), buf@, pos as int, version)
            == Ok::<(ValueView, int), DecodeError>((v@, end as int)),
        r matches Err(e) ==> kind_at(kind, views(vals@), buf@, pos as int, version) == Err::<(ValueView, int), DecodeError>(e),
{
    let (count, rec) = match kind {
        FieldKind::Array(c, k) => (c, k),
        _ => (CountKind::Rest, RecordKind::I32),
    };
    if count == CountKind::Rest {
        return Err(DecodeError::InvalidLength);
    }
    let (n, p) = read_count(count, vals, buf, pos)?;
    let (rs, end) = read_records(rec, buf, p, n)?;
    Ok((Value::Array(rs), end))
}

#[verifier::rlimit(60)]
fn read_scalar_field(kind: FieldKind, vals: &Vec<Value>, buf: &[u8], pos: usize, version: i32) -> (r: Result<(Value, usize), DecodeError>)
    requires
        pos <= buf@.len(),
        kind is Bool || kind is U128 || kind is VarInt || kind is VarLong,
    ensures
        r matches Ok((v, end)) ==> pos <= end <= buf@.len() && kind_at(kind, views(vals@), buf@, pos as int, version)
            == Ok::<(ValueView, int), DecodeError>((v@, end as int)),
        r matches Err(e) ==> kind_at(kind, views(vals@), buf@, pos as int, version) == Err::<(ValueView, int), DecodeError>(e),
{
    match kind {
        FieldKind::Bool => {
            let (v, p) = read_uint(buf, pos, 1)?;
            Ok((Value::Bool(v != 0), p))
        },
        FieldKind::U128 => {
            let (v, p) = read_uint(buf, pos, 16)?;
            Ok((Value::U128(v), p))
        },
        FieldKind::VarInt => {
            let (v, p) = read_varint(buf, pos)?;
            Ok((Value::Int(v as i64), p))
        },
        _ => {
            let (v, p) = read_varlong(buf, pos)?;
            Ok((Value::Int(v), p))
        },
    }
}

#[verifier::rlimit(60)]
fn read_meta_field(kind: FieldKind, vals: &Vec<Value>, buf: &[u8], pos: usize, version: i32) -> (r: Result<(Value, usize), DecodeError>)
    requires
        pos <= buf@.len(),
        kind is Meta,
    ensures
        r matches Ok((v, end)) ==> pos <= end <= buf@.len() && kind_at(kind, views(vals@), buf@, pos as int, version)
            == Ok::<(ValueView, int), DecodeError>((v@, end as int)),
        r matches Err(e) ==> kind_at(kind, views(vals@), buf@, pos as int, version) == Err::<(ValueView, int), DecodeError>(e),
{
    assert(kind_at(kind, views(vals@), buf@, pos as int, version) == match entity_meta_read(buf@, pos as int) {
        Ok((es, p)) => Ok::<(ValueView, int), DecodeError>((ValueView::Meta(es), p)),
        Err(e) => Err(e),
    });
    match EntityMeta::read_from(buf, pos) {
        Ok((m, p)) => {
            let ghost es = entries_view(m.entries@);
            let r = Value::Meta(m);
            assert(r@ == ValueView::Meta(es));
            Ok((r, p))
        },
        Err(e) => Err(e),
    }
}

#[verifier::rlimit(60)]
fn read_slot_field(kind: FieldKind, vals: &Vec<Value>, buf: &[u8], pos: usize, version: i32) -> (r: Result<(Value, usize), DecodeError>)
    requires
        pos <= buf@.len(),
        kind is Slot,
    ensures
        r matches Ok((v, end)) ==> pos <= end <= buf@.len() && kind_at(kind, views(vals@), buf@, pos as int, version)
            == Ok::<(ValueView, int), DecodeError>((v@, end as int)),
        r matches Err(e) ==> kind_at(kind, views(vals@), buf@, pos as int, version) == Err::<(ValueView, int), DecodeError>(e),
{
    assert(kind_at(kind, views(vals@), buf@, pos as int, version) == match slot_read(buf@, pos as int) {
        Ok((v, p)) => Ok::<(ValueView, int), DecodeError>((ValueView::Slot(v), p)),
        Err(e) => Err(e),
    });
    match read_slot(buf, pos) {
        Ok((v, p)) => {
            let ghost sv = v@;
            let r = Value::Slot(v);
            assert(r@ == ValueView::Slot(sv));
            Ok((r, p))
        },
        Err(e) => Err(e),
    }
}

#[verifier::rlimit(60)]
fn read_text_field(kind: FieldKind, vals: &Vec<Value>, buf: &[u8], pos: usize, version: i32) -> (r: Result<(Value, usize), DecodeError>)
    requires
        pos <= buf@.len(),
        kind is Str,
    ensures
        r matches Ok((v, end)) ==> pos <= end <= buf@.len() && kind_at(kind, views(vals@), buf@, pos as int, version)
            == Ok::<(ValueView, int), DecodeError>((v@, end as int)),
        r matches Err(e) ==> kind_at(kind, views(vals@), buf@, pos as int, version) == Err::<(ValueView, int), DecodeError>(e),
{
    let (t, p) = read_varstring(buf, pos)?;
    Ok((Value::Str(t), p))
}

#[verifier::rlimit(60)]
fn read_position_field(kind: FieldKind, vals: &Vec<Value>, buf: &[u8], pos: usize, version: i32) -> (r: Result<(Value, usize), DecodeError>)
    requires
        pos <= buf@.len(),
        kind is Position || kind is PositionIBI || kind is PositionISI || kind is PositionIII,
    ensures
        r matches Ok((v, end)) ==> pos <= end <= buf@.len() && kind_at(kind, views(vals@), buf@, pos as int, version)
            == Ok::<(ValueView, int), DecodeError>((v@, end as int)),
        r matches Err(e) ==> kind_at(kind, views(vals@), buf@, pos as int, version) == Err::<(ValueView, int), DecodeError>(e),
{
    match kind {
        FieldKind::PositionIBI => read_legacy_position(buf, pos, 1, false),
        FieldKind::PositionISI => read_legacy_position(buf, pos, 2, true),
        FieldKind::PositionIII => read_legacy_position(buf, pos, 4, true),
        _ => {
            let (v, p) = Position::read_from_versioned(buf, pos, version)?;
            Ok((Value::Position(v), p))
        },
    }
}

/// Reads one field of kind `kind` at `pos`, given the values before it.
pub fn read_kind(kind: FieldKind, vals: &Vec<Value>, buf: &[u8], pos: usize, version: i32) -> (r: Result<(Value, usize), DecodeError>)
    requires
        pos <= buf@.len(),
    ensures
        r matches Ok((v, end)) ==> pos <= end <= buf@.len() && kind_at(kind, views(vals@), buf@, pos as int, version)
            == Ok::<(ValueView, int), DecodeError>((v@, end as int)),
        r matches Err(e) ==> kind_at(kind, views(vals@), buf@, pos as int, version) == Err::<(ValueView, int), DecodeError>(e),
{
    match kind {
        FieldKind::Bytes(_) => read_bytes_field(kind, vals, buf, pos, version),
        FieldKind::Array(_, _) => read_array_field(kind, vals, buf, pos, version),
        FieldKind::Str => read_text_field(kind, vals, buf, pos, version),
        FieldKind::Slot => read_slot_field(kind, vals, buf, pos, version),
        FieldKind::Meta => read_meta_field(kind, vals, buf, pos, version),
        FieldKind::Bool | FieldKind::U128 | FieldKind::VarInt | FieldKind::VarLong => read_scalar_field(kind, vals, buf, pos, version),
        FieldKind::Position | FieldKind::PositionIBI | FieldKind::PositionISI | FieldKind::PositionIII => read_position_field(kind, vals, buf, pos, version),
        _ => read_int_field(kind, buf, pos),
    }
}

/// Reads a whole payload with a layout: the values in field order and the
/// number of bytes they took.
pub fn read_payload(fields: &Vec<FieldSpec>, buf: &[u8], version: i32) -> (r: Result<(Vec<Value>, usize), DecodeError>)
    ensures
        r matches Ok((vals, used)) ==> used <= buf@.len() && payload_read(fields@, buf@, version)
            == Ok::<(Seq<ValueView>, int), DecodeError>((views(vals@), used as int)),
        r matches Err(e) ==> payload_read(fields@, buf@, version) == Err::<(Seq<ValueView>, int), DecodeError>(e),
{
    let mut vals: Vec<Value> = Vec::new();
    let mut pos: usize = 0;
    let mut i: usize = 0;
    assert(views(vals@) =~= Seq::<ValueView>::empty());
    while i < fields.len()
        invariant
            i <= fields@.len(),
            pos <= buf@.len(),
            payload_read(fields@, buf@, version) == fields_from(fields@, i as int, views(vals@), buf@, pos as int, version),
        decreases fields@.len() - i,
    {
        let f = fields[i];
        let ghost before = views(vals@);
        let (v, p) = match f.rule {
            Rule::When(c) => if cond_holds_exec(c, &vals) {
                read_kind(f.kind, &vals, buf, pos, version)?
            } else {
                (Value::Absent, pos)
            },
            _ => read_kind(f.kind, &vals, buf, pos, version)?,
        };
        let ghost vv = v@;
        vals.push(v);
        assert(views(vals@) =~= before.push(vv));
        pos = p;
        i = i + 1;
    }
    Ok((vals, pos))
}

/// What a count prefix of `n` elements looks like.
pub open spec fn count_wire(count: CountKind, n: nat) -> Seq<u8> {
    match count {
        CountKind::I8 => signed_wire(n as i64, 1),
        CountKind::I16 => signed_wire(n as i64, 2),
        CountKind::I32 => signed_wire(n as i64, 4),
        CountKind::VarInt => varint_wire(n as i32),
        _ => Seq::empty(),
    }
}

/// The bytes of one record.
pub open spec fn record_wire(r: Record) -> Seq<u8> {
    match r {
        Record::I32(v) => signed_wire(v as i64, 4),
        Record::VarInt(v) => varint_wire(v),
        Record::Explosion(e) => e.spec_wire(),
        Record::ChunkMeta(m) => m.spec_wire(),
        Record::ChunkMeta47(m) => m.spec_wire(),
        Record::BlockChange5(b) => b.spec_wire(),
        Record::BlockChange47(b) => b.spec_wire(),
    }
}

/// The bytes of a record sequence, in order.
pub open spec fn records_wire(rs: Seq<Record>) -> Seq<u8>
    decreases rs.len(),
{
    if rs.len() == 0 {
        Seq::empty()
    } else {
        records_wire(rs.drop_last()) + record_wire(rs.last())
    }
}

/// The element count of a sequence value; zero for any other value.
pub open spec fn seq_len(v: ValueView) -> nat {
    match v {
        ValueView::Bytes(b) => b.len(),
        ValueView::Array(rs) => rs.len(),
        _ => 0,
    }
}

/// The bytes of value `v` in a field of kind `kind`. A value of another shape
/// than the kind, `Absent` included, contributes nothing.
pub open spec fn kind_wire(kind: FieldKind, v: ValueView, version: i32) -> Seq<u8> {
    match (kind, v) {
        (FieldKind::Bool, ValueView::Bool(b)) => seq![if b { 1u8 } else { 0u8 }],
        (FieldKind::U128, ValueView::U128(u)) => be_bytes(u as nat, 16),
        (FieldKind::VarInt, ValueView::Int(x)) => varint_wire(x as i32),
        (FieldKind::VarLong, ValueView::Int(x)) => varlong_wire(x),
        (FieldKind::Str, ValueView::Str(t)) => varstring_wire(t),
        (FieldKind::Slot, ValueView::Slot(v)) => slot_wire(v),
        (FieldKind::Meta, ValueView::Meta(es)) => entity_meta_wire(es),
        (FieldKind::Position, ValueView::Position(p)) => position_wire(p, version),
        (FieldKind::PositionIBI, ValueView::Position(p)) => signed_wire(p.x as i64, 4) + signed_wire(p.y as i64, 1) + signed_wire(p.z as i64, 4),
        (FieldKind::PositionISI, ValueView::Position(p)) => signed_wire(p.x as i64, 4) + signed_wire(p.y as i64, 2) + signed_wire(p.z as i64, 4),
        (FieldKind::PositionIII, ValueView::Position(p)) => signed_wire(p.x as i64, 4) + signed_wire(p.y as i64, 4) + signed_wire(p.z as i64, 4),
        (FieldKind::Bytes(c), ValueView::Bytes(b)) => count_wire(c, b.len()) + b,
        (FieldKind::Array(c, _), ValueView::Array(rs)) => count_wire(c, rs.len()) + records_wire(rs),
        (k, ValueView::Int(x)) => match int_width(k) {
            Some((w, _)) => signed_wire(x, w),
            None => Seq::empty(),
        },
        _ => Seq::empty(),
    }
}

/// The bytes of field `i` with layout `f`: a count field is written from the
/// length of the sequence it counts; a conditional field only when its
/// condition holds.
pub open spec fn field_wire(f: FieldSpec, i: int, vals: Seq<ValueView>, version: i32) -> Seq<u8> {
    match f.rule {
        Rule::CountFor(j) => kind_wire(f.kind, ValueView::Int(seq_len(value_at(vals, j as int)) as i64), version),
        Rule::When(c) => if cond_holds(c, vals) {
            kind_wire(f.kind, value_at(vals, i), version)
        } else {
            Seq::empty()
        },
        Rule::Always => kind_wire(f.kind, value_at(vals, i), version),
    }
}

/// The bytes of the first `k` fields.
pub open spec fn fields_wire(fields: Seq<FieldSpec>, vals: Seq<ValueView>, version: i32, k: nat) -> Seq<u8>
    decreases k,
{
    if k == 0 || k > fields.len() {
        Seq::empty()
    } else {
        fields_wire(fields, vals, version, (k - 1) as nat) + field_wire(fields[k - 1], k - 1, vals, version)
    }
}

/// The payload that a layout and its values make.
pub open spec fn payload_wire(fields: Seq<FieldSpec>, vals: Seq<ValueView>, version: i32) -> Seq<u8> {
    fields_wire(fields, vals, version, fields.len())
}

fn write_count(count: CountKind, n: usize, out: &mut Vec<u8>)
    ensures
        final(out)@ == old(out)@ + count_wire(count, n as nat),
{
    let v = #[verifier::truncate] (n as i64);
    match count {
        CountKind::I8 => write_signed(out, v, 1),
        CountKind::I16 => write_signed(out, v, 2),
        CountKind::I32 => write_signed(out, v, 4),
        CountKind::VarInt => write_varint(out, #[verifier::truncate] (n as i32)),
        _ => {
            assert(out@ =~= old(out)@ + count_wire(count, n as nat));
        },
    }
}

fn write_record(r: &Record, out: &mut Vec<u8>)
    ensures
        final(out)@ == old(out)@ + record_wire(*r),
{
    match r {
        Record::I32(v) => write_signed(out, *v as i64, 4),
        Record::VarInt(v) => write_varint(out, *v),
        Record::Explosion(e) => e.write_to(out),
        Record::ChunkMeta(m) => m.write_to(out),
        Record::ChunkMeta47(m) => m.write_to(out),
        Record::BlockChange5(b) => b.write_to(out),
        Record::BlockChange47(b) => b.write_to(out),
    }
}

fn write_records(rs: &Vec<Record>, out: &mut Vec<u8>)
    ensures
        final(out)@ == old(out)@ + records_wire(rs@),
{
    let mut i: usize = 0;
    while i < rs.len()
        invariant
            i <= rs@.len(),
            out@ == old(out)@ + records_wire(rs@.subrange(0, i as int)),
        decreases rs@.len() - i,
    {
        let ghost before = out@;
        write_record(&rs[i], out);
        assert(rs@.subrange(0, i + 1).drop_last() =~= rs@.subrange(0, i as int));
        assert(out@ =~= old(out)@ + records_wire(rs@.subrange(0, i + 1)));
        i = i + 1;
    }
    assert(rs@.subrange(0, rs@.len() as int) =~= rs@);
}

fn write_legacy_position(p: Position, yw: usize, out: &mut Vec<u8>)
    ensures
        final(out)@ == old(out)@ + signed_wire(p.x as i64, 4) + signed_wire(p.y as i64, yw as nat) + signed_wire(p.z as i64, 4),
{
    write_signed(out, p.x as i64, 4);
    write_signed(out, p.y as i64, yw);
    write_signed(out, p.z as i64, 4);
}

/// Appends value `v` in a field of kind `kind`.
pub fn write_kind(kind: FieldKind, v: &Value, out: &mut Vec<u8>, version: i32)
    requires
        value_fits(v@),
    ensures
        final(out)@ == old(out)@ + kind_wire(kind, v@, version),
{
    match (kind, v) {
        (FieldKind::Bool, Value::Bool(b)) => out.push(if *b { 1u8 } else { 0u8 }),
        (FieldKind::U128, Value::U128(u)) => write_uint(out, *u, 16),
        (FieldKind::VarInt, Value::Int(x)) => write_varint(out, #[verifier::truncate] (*x as i32)),
        (FieldKind::VarLong, Value::Int(x)) => write_varlong(out, *x),
        (FieldKind::Str, Value::Str(t)) => write_varstring(out, t.as_str()),
        (FieldKind::Slot, Value::Slot(v)) => write_slot(out, v),
        (FieldKind::Meta, Value::Meta(m)) => m.write_to(out),
        (FieldKind::Position, Value::Position(p)) => p.write_to_versioned(out, version),
        (FieldKind::PositionIBI, Value::Position(p)) => write_legacy_position(*p, 1, out),
        (FieldKind::PositionISI, Value::Position(p)) => write_legacy_position(*p, 2, out),
        (FieldKind::PositionIII, Value::Position(p)) => write_legacy_position(*p, 4, out),
        (FieldKind::Bytes(c), Value::Bytes(b)) => {
            write_count(c, b.len(), out);
            append_bytes(out, b.as_slice());
        },
        (FieldKind::Array(c, _), Value::Array(rs)) => {
            write_count(c, rs.len(), out);
            write_records(rs, out);
        },
        (FieldKind::I8, Value::Int(x)) => write_signed(out, *x, 1),
        (FieldKind::U8, Value::Int(x)) => write_signed(out, *x, 1),
        (FieldKind::I16, Value::Int(x)) => write_signed(out, *x, 2),
        (FieldKind::U16, Value::Int(x)) => write_signed(out, *x, 2),
        (FieldKind::I32, Value::Int(x)) => write_signed(out, *x, 4),
        (FieldKind::F32, Value::Int(x)) => write_signed(out, *x, 4),
        (FieldKind::I64, Value::Int(x)) => write_signed(out, *x, 8),
        (FieldKind::F64, Value::Int(x)) => write_signed(out, *x, 8),
        _ => {},
    }
    assert(out@ =~= old(out)@ + kind_wire(kind, v@, version));
}

/// The length of a sequence value; zero for any other value.
fn seq_len_exec(v: &Value) -> (r: usize)
    ensures
        r == seq_len(v@),
{
    match v {
        Value::Bytes(b) => b.len(),
        Value::Array(rs) => rs.len(),
        _ => 0,
    }
}

/// Whether a value can be written so that it reads back: a string's byte
/// length fits the varint that prefixes it, a slot is well formed.
pub open spec fn value_fits(v: ValueView) -> bool {
    match v {
        ValueView::Str(t) => encode_utf8(t).len() <= i32::MAX,
        ValueView::Slot(s) => slot_fits(s),
        ValueView::Meta(es) => entity_meta_fits(es),
        _ => true,
    }
}

/// Whether every value among `vals` fits its wire form.
pub open spec fn values_fit(vals: Seq<ValueView>) -> bool {
    forall|i: int| 0 <= i < vals.len() ==> value_fits(#[trigger] vals[i])
}

/// Checks that every value among `vals` fits its wire form.
pub fn check_values_fit(vals: &Vec<Value>) -> (r: bool)
    ensures
        r == values_fit(views(vals@)),
{
    let mut i: usize = 0;
    while i < vals.len()
        invariant
            i <= vals@.len(),
            forall|j: int| 0 <= j < i ==> value_fits(#[trigger] views(vals@)[j]),
        decreases vals@.len() - i,
    {
        assert(views(vals@)[i as int] == vals@[i as int]@);
        match &vals[i] {
            Value::Str(t) => {
                let text = t.as_str();
                let n = text.as_bytes().len();
                assert(text@ == t@);
                assert(text.spec_bytes() == encode_utf8(text@));
                assert(n == encode_utf8(t@).len());
                if n > 0x7fff_ffff {
                    return false;
                }
            },
            Value::Slot(v) => {
                if !slot_fits_exec(v) {
                    return false;
                }
            },
            Value::Meta(m) => {
                if !check_entity_meta_fits(m) {
                    return false;
                }
            },
            _ => {},
        }
        assert(value_fits(views(vals@)[i as int]));
        i = i + 1;
    }
    true
}

/// Builds the payload for `vals` with layout `fields`.
pub fn write_payload(fields: &Vec<FieldSpec>, vals: &Vec<Value>, version: i32) -> (r: Vec<u8>)
    requires
        values_fit(views(vals@)),
    ensures
        r@ == payload_wire(fields@, views(vals@), version),
{
    let mut out: Vec<u8> = Vec::new();
    let mut i: usize = 0;
    let ghost vv = views(vals@);
    while i < fields.len()
        invariant
            i <= fields@.len(),
            vv == views(vals@),
            values_fit(vv),
            out@ == fields_wire(fields@, vv, version, i as nat),
        decreases fields@.len() - i,
    {
        let f = fields[i];
        let absent = Value::Absent;
        let cur: &Value = if i < vals.len() {
            &vals[i]
        } else {
            &absent
        };
        assert(cur@ == value_at(vv, i as int));
        match f.rule {
            Rule::CountFor(j) => {
                let n: usize = if j < vals.len() {
                    seq_len_exec(&vals[j])
                } else {
                    0
                };
                assert(n == seq_len(value_at(vv, j as int)));
                write_kind(f.kind, &Value::Int(#[verifier::truncate] (n as i64)), &mut out, version);
            },
            Rule::When(c) => {
                if cond_holds_exec(c, vals) {
                    write_kind(f.kind, cur, &mut out, version);
                }
            },
            Rule::Always => write_kind(f.kind, cur, &mut out, version),
        }
        i = i + 1;
    }
    out
}

} // verus!

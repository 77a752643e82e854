use vstd::prelude::*;

use crate::error::DecodeError;

verus! {

/// Most bytes a 32-bit varint may occupy.
pub const VARINT_MAX_BYTES: usize = 5;

/// Most bytes a 64-bit varint may occupy.
pub const VARLONG_MAX_BYTES: usize = 9;

/// The minimal encoding of `v`: seven bits per byte, least significant group
/// first, the high bit set on every byte but the last.
pub open spec fn varint_bytes(v: nat) -> Seq<u8>
    decreases v,
{
    if v < 128 {
        seq![v as u8]
    } else {
        seq![(v % 128 + 128) as u8] + varint_bytes(v / 128)
    }
}

/// Reads groups from the start of `s`, stopping at the first byte without the
/// continuation bit or after `max` bytes: the value and the bytes used, or
/// `None` when `s` ends first.
pub open spec fn varint_parse(s: Seq<u8>, max: nat) -> Option<(nat, nat)>
    decreases max,
{
    if max == 0 || s.len() == 0 {
        None
    } else if s[0] < 128 || max == 1 {
        Some(((s[0] % 128) as nat, 1nat))
    } else {
        match varint_parse(s.drop_first(), (max - 1) as nat) {
            Some((v, n)) => Some(((s[0] % 128) as nat + 128 * v, n + 1)),
            None => None,
        }
    }
}

/// `128` to the power `k`: one more than the largest value `k` groups hold.
pub open spec fn group_bound(k: nat) -> nat
    decreases k,
{
    if k == 0 {
        1
    } else {
        128 * group_bound((k - 1) as nat)
    }
}

/// What `write_varint` emits: the unsigned reading of the two's complement bits.
pub open spec fn varint_wire(value: i32) -> Seq<u8> {
    varint_bytes((value as u32) as nat)
}

/// What `write_varlong` emits.
pub open spec fn varlong_wire(value: i64) -> Seq<u8> {
    varint_bytes((value as u64) as nat)
}

/// A 32-bit varint at the start of `s`: at most five bytes, the value taken
/// modulo 2^32 as two's complement.
pub open spec fn varint_read(s: Seq<u8>) -> Option<(i32, nat)> {
    match varint_parse(s, 5) {
        Some((v, n)) => Some(((v as u32) as i32, n)),
        None => None,
    }
}

/// A 64-bit varint at the start of `s`: at most nine bytes.
pub open spec fn varlong_read(s: Seq<u8>) -> Option<(i64, nat)> {
    match varint_parse(s, 9) {
        Some((v, n)) => Some(((v as u64) as i64, n)),
        None => None,
    }
}

/// The bytes of `buf` from `pos` on.
pub open spec fn rest_of(buf: Seq<u8>, pos: int) -> Seq<u8> {
    buf.subrange(pos, buf.len() as int)
}

pub proof fn lemma_group_bound_mono(a: nat, b: nat)
    requires
        a <= b,
    ensures
        group_bound(a) <= group_bound(b),
        group_bound(a) >= 1,
    decreases b,
{
    if b == 0 {
    } else if a == b {
        lemma_group_bound_mono((a - 1) as nat, (b - 1) as nat);
    } else {
        lemma_group_bound_mono(a, (b - 1) as nat);
    }
}

proof fn lemma_group_bound_values()
    ensures
        group_bound(4) == 0x1000_0000,
        group_bound(5) == 0x8_0000_0000,
        group_bound(8) == 0x100_0000_0000_0000,
        group_bound(9) == 0x8000_0000_0000_0000,
{
    reveal_with_fuel(group_bound, 10);
}

/// A parsed value is below `128^n` for the `n` bytes it used.
pub proof fn lemma_parse_bound(s: Seq<u8>, max: nat)
    ensures
        match varint_parse(s, max) {
            Some((v, n)) => v < group_bound(n) && 1 <= n <= max && n <= s.len(),
            None => true,
        },
    decreases max,
{
    reveal_with_fuel(group_bound, 2);
    if max == 0 || s.len() == 0 {
    } else if s[0] < 128 || max == 1 {
    } else {
        let t = s.drop_first();
        lemma_parse_bound(t, (max - 1) as nat);
        match varint_parse(t, (max - 1) as nat) {
            Some((v2, n2)) => {
                let b = (s[0] % 128) as nat;
                let g = group_bound(n2);
                assert(group_bound(n2 + 1) == 128 * g);
                assert(b + 128 * v2 < 128 * g) by (nonlinear_arith)
                    requires
                        v2 < g,
                        b < 128,
                ;
            },
            None => {},
        }
    }
}

/// The encoding of a value below `128^k` takes between one and `k` bytes.
pub proof fn lemma_bytes_len(v: nat, k: nat)
    requires
        k >= 1,
        v < group_bound(k),
    ensures
        1 <= varint_bytes(v).len() <= k,
    decreases v,
{
    if v >= 128 {
        assert(k >= 2) by {
            if k == 1 {
                reveal_with_fuel(group_bound, 2);
            }
        }
        assert(v / 128 < group_bound((k - 1) as nat));
        lemma_bytes_len(v / 128, (k - 1) as nat);
    }
}

/// Exact length of an encoding, by the range of the value.
pub proof fn lemma_bytes_len_exact(v: nat)
    requires
        v < 0x8_0000_0000,
    ensures
        varint_bytes(v).len() == (if v < 0x80 {
            1nat
        } else if v < 0x4000 {
            2nat
        } else if v < 0x20_0000 {
            3nat
        } else if v < 0x1000_0000 {
            4nat
        } else {
            5nat
        }),
    decreases v,
{
    if v >= 128 {
        lemma_bytes_len_exact(v / 128);
    }
}

/// Parsing an encoding gives back the value and its length, whatever follows.
pub proof fn lemma_parse_bytes(v: nat, rest: Seq<u8>, max: nat)
    requires
        varint_bytes(v).len() <= max,
    ensures
        varint_parse(varint_bytes(v) + rest, max) == Some((v, varint_bytes(v).len())),
    decreases v,
{
    let s = varint_bytes(v) + rest;
    if v < 128 {
        assert(s[0] == v as u8);
    } else {
        let tail = varint_bytes(v / 128);
        assert(s.drop_first() =~= tail + rest);
        lemma_parse_bytes(v / 128, rest, (max - 1) as nat);
    }
}

fn read_groups(buf: &[u8], pos: usize, max: usize) -> (r: Option<(u64, usize)>)
    requires
        pos <= buf@.len(),
        1 <= max <= 9,
    ensures
        match r {
            Some((v, n)) => varint_parse(rest_of(buf@, pos as int), max as nat) == Some(
                (v as nat, n as nat),
            ),
            None => varint_parse(rest_of(buf@, pos as int), max as nat) is None,
        },
    decreases max,
{
    let ghost s = rest_of(buf@, pos as int);
    if pos >= buf.len() {
        return None;
    }
    let b = buf[pos];
    assert(s[0] == b);
    if b < 128 || max == 1 {
        return Some(((b % 128) as u64, 1));
    }
    assert(rest_of(buf@, pos + 1) =~= s.drop_first());
    match read_groups(buf, pos + 1, max - 1) {
        Some((v, n)) => {
            proof {
                lemma_parse_bound(s.drop_first(), (max - 1) as nat);
                lemma_group_bound_mono(n as nat, 8);
                lemma_group_bound_values();
            }
            Some(((b % 128) as u64 + 128 * v, n + 1))
        },
        None => None,
    }
}

/// Reads a 32-bit varint at `pos`; gives the value and the position after it.
pub fn read_varint(buf: &[u8], pos: usize) -> (r: Result<(i32, usize), DecodeError>)
    requires
        pos <= buf@.len(),
    ensures
        match r {
            Ok((v, end)) => pos <= end <= buf@.len() && varint_read(rest_of(buf@, pos as int))
                == Some((v, (end - pos) as nat)),
            Err(e) => e == DecodeError::ShortRead && varint_read(rest_of(buf@, pos as int)) is None,
        },
{
    let len = buf.len();
    match read_groups(buf, pos, VARINT_MAX_BYTES) {
        Some((v, n)) => {
            proof {
                lemma_parse_bound(rest_of(buf@, pos as int), 5);
                assert(n <= len - pos);
            }
            Ok((#[verifier::truncate] ((#[verifier::truncate] (v as u32)) as i32), pos + n))
        },
        None => Err(DecodeError::ShortRead),
    }
}

/// Reads a 64-bit varint at `pos`; gives the value and the position after it.
pub fn read_varlong(buf: &[u8], pos: usize) -> (r: Result<(i64, usize), DecodeError>)
    requires
        pos <= buf@.len(),
    ensures
        match r {
            Ok((v, end)) => pos <= end <= buf@.len() && varlong_read(rest_of(buf@, pos as int))
                == Some((v, (end - pos) as nat)),
            Err(e) => e == DecodeError::ShortRead && varlong_read(rest_of(buf@, pos as int))
                is None,
        },
{
    let len = buf.len();
    match read_groups(buf, pos, VARLONG_MAX_BYTES) {
        Some((v, n)) => {
            proof {
                lemma_parse_bound(rest_of(buf@, pos as int), 9);
                assert(n <= len - pos);
            }
            Ok((#[verifier::truncate] (v as i64), pos + n))
        },
        None => Err(DecodeError::ShortRead),
    }
}

/// Appends the minimal encoding of an unsigned value.
fn write_groups(out: &mut Vec<u8>, value: u64)
    ensures
        final(out)@ == old(out)@ + varint_bytes(value as nat),
{
    let mut val = value;
    while val >= 128
        invariant
            out@ + varint_bytes(val as nat) == old(out)@ + varint_bytes(value as nat),
        decreases val,
    {
        let byte = ((val & 0x7f) | 0x80) as u8;
        assert((val & 0x7f) | 0x80 == val % 128 + 128) by (bit_vector);
        assert(val >> 7 == val / 128) by (bit_vector);
        let ghost before = out@;
        out.push(byte);
        assert(out@ + varint_bytes((val / 128) as nat) =~= before + varint_bytes(val as nat));
        val = val >> 7;
    }
    let ghost before = out@;
    out.push(val as u8);
    assert(out@ =~= before + varint_bytes(val as nat));
}

/// Appends `value` as a varint: the minimal byte count for its unsigned bits.
pub fn write_varint(out: &mut Vec<u8>, value: i32)
    ensures
        final(out)@ == old(out)@ + varint_wire(value),
{
    write_groups(out, (value as u32) as u64);
}

/// Appends `value` as a 64-bit varint.
pub fn write_varlong(out: &mut Vec<u8>, value: i64)
    ensures
        final(out)@ == old(out)@ + varlong_wire(value),
{
    write_groups(out, value as u64);
}

/// The number of bytes `write_varint` emits for `value`: `ceil(bits / 7)`,
/// at least one.
pub fn varint_len(value: i32) -> (r: usize)
    ensures
        r as nat == varint_wire(value).len(),
        1 <= r <= 5,
{
    let v = value as u32;
    proof {
        lemma_bytes_len_exact(v as nat);
    }
    if v < 0x80 {
        1
    } else if v < 0x4000 {
        2
    } else if v < 0x20_0000 {
        3
    } else if v < 0x1000_0000 {
        4
    } else {
        5
    }
}

/// Varint round trip: reading the bytes `write_varint` emits for any `i32`
/// gives the value back and uses exactly those bytes, whatever follows them;
/// there are at most five of them.
pub proof fn varint_round_trip(value: i32, rest: Seq<u8>)
    ensures
        varint_read(varint_wire(value) + rest) == Some((value, varint_wire(value).len())),
        1 <= varint_wire(value).len() <= 5,
{
    let u = value as u32;
    lemma_group_bound_values();
    lemma_bytes_len(u as nat, 5);
    lemma_parse_bytes(u as nat, rest, 5);
    assert((u as nat) as u32 == u);
    assert((value as u32) as i32 == value) by (bit_vector);
}

/// Varlong round trip for the values whose encoding fits the nine bytes a
/// reader takes: every non-negative `i64`.
pub proof fn varlong_round_trip(value: i64, rest: Seq<u8>)
    requires
        value >= 0,
    ensures
        varlong_read(varlong_wire(value) + rest) == Some((value, varlong_wire(value).len())),
        1 <= varlong_wire(value).len() <= 9,
{
    let u = value as u64;
    lemma_group_bound_values();
    assert(u == value);
    lemma_bytes_len(u as nat, 9);
    lemma_parse_bytes(u as nat, rest, 9);
    assert((u as nat) as u64 == u);
}

/// A protocol field holding a 32-bit varint.
#[derive(Debug, Clone, Copy, PartialEq, Eq, Structural, Default)]
pub struct VarInt(pub i32);

/// A protocol field holding a 64-bit varint.
#[derive(Debug, Clone, Copy, PartialEq, Eq, Structural, Default)]
pub struct VarLong(pub i64);

} // verus!

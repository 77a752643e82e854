use vstd::prelude::*;
use vstd::arithmetic::div_mod::{lemma_mod_breakdown, lemma_mod_multiples_vanish, lemma_small_mod};
use vstd::utf8::{decode_utf8, encode_utf8, valid_utf8};

use crate::error::DecodeError;
use crate::varint::{rest_of, varint_read, varint_wire, write_varint, read_varint};

verus! {

/// `256` to the power `n`.
pub open spec fn byte_bound(n: nat) -> nat
    decreases n,
{
    if n == 0 {
        1
    } else {
        256 * byte_bound((n - 1) as nat)
    }
}

/// The big-endian unsigned value of the first `n` bytes of `s`.
pub open spec fn uint_be(s: Seq<u8>, n: nat) -> nat
    decreases n,
{
    if n == 0 || n > s.len() {
        0
    } else {
        uint_be(s, (n - 1) as nat) * 256 + s[n - 1] as nat
    }
}

/// The `n` big-endian bytes of `v` modulo `256^n`.
pub open spec fn be_bytes(v: nat, n: nat) -> Seq<u8>
    decreases n,
{
    if n == 0 {
        Seq::empty()
    } else {
        be_bytes(v / 256, (n - 1) as nat).push((v % 256) as u8)
    }
}

/// A fixed-width big-endian unsigned integer at the start of `s`.
pub open spec fn fixed_read(s: Seq<u8>, n: nat) -> Result<nat, DecodeError> {
    if s.len() < n {
        Err(DecodeError::ShortRead)
    } else {
        Ok(uint_be(s, n))
    }
}

/// A varint length followed by that many UTF-8 bytes, at the start of `s`:
/// the text and the bytes used.
pub open spec fn varstring_read(s: Seq<u8>) -> Result<(Seq<char>, nat), DecodeError> {
    match varint_read(s) {
        None => Err(DecodeError::ShortRead),
        Some((len, k)) => if len < 0 {
            Err(DecodeError::InvalidLength)
        } else if k + len > s.len() {
            Err(DecodeError::ShortRead)
        } else if valid_utf8(s.subrange(k as int, k + len)) {
            Ok((decode_utf8(s.subrange(k as int, k + len)), k + len as nat))
        } else {
            Err(DecodeError::InvalidUtf8)
        },
    }
}

/// What `write_varstring` emits: the UTF-8 byte count as a varint, then the bytes.
pub open spec fn varstring_wire(text: Seq<char>) -> Seq<u8> {
    varint_wire(encode_utf8(text).len() as i32) + encode_utf8(text)
}

pub proof fn lemma_byte_bound_mono(a: nat, b: nat)
    requires
        a <= b,
    ensures
        1 <= byte_bound(a) <= byte_bound(b),
    decreases b,
{
    if b == 0 {
    } else if a == b {
        lemma_byte_bound_mono((a - 1) as nat, (b - 1) as nat);
    } else {
        lemma_byte_bound_mono(a, (b - 1) as nat);
    }
}

/// `256^n` for the widths the protocol uses.
pub proof fn lemma_byte_bound_small()
    ensures
        byte_bound(1) == 0x100,
        byte_bound(2) == 0x1_0000,
        byte_bound(4) == 0x1_0000_0000,
        byte_bound(8) == 0x1_0000_0000_0000_0000,
{
    reveal_with_fuel(byte_bound, 9);
}

proof fn lemma_byte_bound_16()
    ensures
        byte_bound(16) == 0x1_0000_0000_0000_0000_0000_0000_0000_0000,
{
    reveal_with_fuel(byte_bound, 17);
}

/// Reads `n` big-endian bytes at `pos` as an unsigned value.
pub fn read_uint(buf: &[u8], pos: usize, n: usize) -> (r: Result<(u128, usize), DecodeError>)
    requires
        pos <= buf@.len(),
        n <= 16,
    ensures
        match r {
            Ok((v, end)) => end == pos + n && end <= buf@.len() && fixed_read(rest_of(buf@, pos as int), n as nat)
                == Ok::<nat, DecodeError>(v as nat) && v < byte_bound(n as nat),
            Err(e) => fixed_read(rest_of(buf@, pos as int), n as nat) == Err::<nat, DecodeError>(
                e,
            ),
        },
{
    let ghost s = rest_of(buf@, pos as int);
    let len = buf.len();
    if len - pos < n {
        return Err(DecodeError::ShortRead);
    }
    let mut acc: u128 = 0;
    let mut i: usize = 0;
    while i < n
        invariant
            i <= n <= 16,
            pos + n <= buf@.len(),
            len == buf@.len(),
            s == rest_of(buf@, pos as int),
            acc as nat == uint_be(s, i as nat),
            acc < byte_bound(i as nat),
        decreases n - i,
    {
        let b = buf[pos + i];
        assert(s[i as int] == b);
        proof {
            lemma_byte_bound_mono((i + 1) as nat, 16);
            lemma_byte_bound_16();
            assert(acc * 256 + b < 256 * byte_bound(i as nat)) by (nonlinear_arith)
                requires
                    acc < byte_bound(i as nat),
                    b < 256,
            ;
        }
        acc = acc * 256 + b as u128;
        i = i + 1;
    }
    Ok((acc, pos + n))
}

/// Appends the low `n` bytes of `v`, most significant first.
pub fn write_uint(out: &mut Vec<u8>, v: u128, n: usize)
    ensures
        final(out)@ == old(out)@ + be_bytes(v as nat, n as nat),
    decreases n,
{
    if n > 0 {
        write_uint(out, v / 256, n - 1);
        let ghost mid = out@;
        out.push((v % 256) as u8);
        assert(out@ =~= old(out)@ + be_bytes(v as nat, n as nat));
    }
}

/// Copies `buf[start..end]` into a new vector.
pub fn copy_range(buf: &[u8], start: usize, end: usize) -> (r: Vec<u8>)
    requires
        start <= end <= buf@.len(),
    ensures
        r@ == buf@.subrange(start as int, end as int),
{
    let mut r: Vec<u8> = Vec::new();
    let mut i = start;
    while i < end
        invariant
            start <= i <= end <= buf@.len(),
            r@ == buf@.subrange(start as int, i as int),
        decreases end - i,
    {
        r.push(buf[i]);
        assert(r@ =~= buf@.subrange(start as int, i + 1));
        i = i + 1;
    }
    r
}

/// Appends every byte of `bytes`.
pub fn append_bytes(out: &mut Vec<u8>, bytes: &[u8])
    ensures
        final(out)@ == old(out)@ + bytes@,
{
    let mut i: usize = 0;
    while i < bytes.len()
        invariant
            i <= bytes@.len(),
            out@ == old(out)@ + bytes@.subrange(0, i as int),
        decreases bytes@.len() - i,
    {
        out.push(bytes[i]);
        assert(out@ =~= old(out)@ + bytes@.subrange(0, i + 1));
        i = i + 1;
    }
    assert(bytes@.subrange(0, bytes@.len() as int) =~= bytes@);
}

/// Relies on `String::from_utf8`: it accepts exactly the valid UTF-8
/// sequences and then holds the characters they encode.
#[verifier::external_body]
fn string_from_utf8(bytes: Vec<u8>) -> (r: Option<String>)
    ensures
        match r {
            Some(text) => valid_utf8(bytes@) && text@ == decode_utf8(bytes@),
            None => !valid_utf8(bytes@),
        },
{
    String::from_utf8(bytes).ok()
}

/// Reads a varint-length-prefixed UTF-8 string at `pos`.
pub fn read_varstring(buf: &[u8], pos: usize) -> (r: Result<(String, usize), DecodeError>)
    requires
        pos <= buf@.len(),
    ensures
        match r {
            Ok((text, end)) => pos <= end <= buf@.len() && varstring_read(rest_of(buf@, pos as int))
                == Ok::<(Seq<char>, nat), DecodeError>((text@, (end - pos) as nat)),
            Err(e) => varstring_read(rest_of(buf@, pos as int)) == Err::<(Seq<char>, nat), DecodeError>(
                e,
            ),
        },
{
    let ghost s = rest_of(buf@, pos as int);
    let (len, start) = read_varint(buf, pos)?;
    if len < 0 {
        return Err(DecodeError::InvalidLength);
    }
    if buf.len() - start < len as usize {
        return Err(DecodeError::ShortRead);
    }
    let end = start + len as usize;
    let bytes = copy_range(buf, start, end);
    assert(bytes@ =~= s.subrange((start - pos) as int, (start - pos) + len));
    match string_from_utf8(bytes) {
        Some(text) => Ok((text, end)),
        None => Err(DecodeError::InvalidUtf8),
    }
}

/// Appends `text` as a varint byte count followed by its UTF-8 bytes.
pub fn write_varstring(out: &mut Vec<u8>, text: &str)
    requires
        encode_utf8(text@).len() <= i32::MAX,
    ensures
        final(out)@ == old(out)@ + varstring_wire(text@),
{
    let bytes = text.as_bytes();
    write_varint(out, bytes.len() as i32);
    append_bytes(out, bytes);
    assert(out@ =~= old(out)@ + varstring_wire(text@));
}

/// The two's complement reading of an `n`-byte unsigned value.
pub open spec fn signed_of(u: nat, n: nat) -> int {
    if 2 * u >= byte_bound(n) {
        u - byte_bound(n)
    } else {
        u as int
    }
}

/// A fixed-width big-endian signed integer at the start of `s`.
pub open spec fn signed_read(s: Seq<u8>, n: nat) -> Result<int, DecodeError> {
    match fixed_read(s, n) {
        Ok(u) => Ok(signed_of(u, n)),
        Err(e) => Err(e),
    }
}

/// What `write_signed` emits: the low `n` bytes of the two's complement bits.
pub open spec fn signed_wire(v: i64, n: nat) -> Seq<u8> {
    be_bytes((v as u64) as nat, n)
}

/// Reads `n` big-endian bytes at `pos` as a two's complement value.
pub fn read_signed(buf: &[u8], pos: usize, n: usize) -> (r: Result<(i64, usize), DecodeError>)
    requires
        pos <= buf@.len(),
        1 <= n <= 8,
    ensures
        match r {
            Ok((v, end)) => end == pos + n && end <= buf@.len() && signed_read(rest_of(buf@, pos as int), n as nat)
                == Ok::<int, DecodeError>(v as int) && -byte_bound(n as nat) <= 2 * v < byte_bound(
                n as nat,
            ),
            Err(e) => signed_read(rest_of(buf@, pos as int), n as nat) == Err::<int, DecodeError>(e),
        },
{
    let (u, end) = read_uint(buf, pos, n)?;
    let full: u128 = if n == 1 {
        0x100
    } else if n == 2 {
        0x1_0000
    } else if n == 3 {
        0x100_0000
    } else if n == 4 {
        0x1_0000_0000
    } else if n == 5 {
        0x100_0000_0000
    } else if n == 6 {
        0x1_0000_0000_0000
    } else if n == 7 {
        0x100_0000_0000_0000
    } else {
        0x1_0000_0000_0000_0000
    };
    assert(full == byte_bound(n as nat)) by {
        reveal_with_fuel(byte_bound, 9);
    }
    if 2 * u >= full {
        Ok(((u as i128 - full as i128) as i64, end))
    } else {
        Ok((u as i64, end))
    }
}

/// Appends the low `n` bytes of `v`'s two's complement bits, most significant first.
pub fn write_signed(out: &mut Vec<u8>, v: i64, n: usize)
    ensures
        final(out)@ == old(out)@ + signed_wire(v, n as nat),
{
    write_uint(out, (#[verifier::truncate] (v as u64)) as u128, n);
}

/// An `n`-byte big-endian unsigned integer at offset `pos` of `s`.
pub open spec fn unsigned_at(s: Seq<u8>, pos: int, n: nat) -> Result<nat, DecodeError> {
    fixed_read(rest_of(s, pos), n)
}

/// An `n`-byte big-endian two's complement integer at offset `pos` of `s`.
pub open spec fn signed_at(s: Seq<u8>, pos: int, n: nat) -> Result<int, DecodeError> {
    signed_read(rest_of(s, pos), n)
}

proof fn lemma_byte_bound_add(a: nat, b: nat)
    ensures
        byte_bound(a + b) == byte_bound(a) * byte_bound(b),
    decreases b,
{
    if b == 0 {
        assert(a + b == a);
        assert(byte_bound(0) == 1);
    } else {
        let c = (b - 1) as nat;
        lemma_byte_bound_add(a, c);
        assert(a + b == (a + c) + 1);
        assert(byte_bound(a + b) == 256 * byte_bound(a + c));
        assert(byte_bound(b) == 256 * byte_bound(c));
        let x = byte_bound(a);
        let y = byte_bound(c);
        assert(x * (256 * y) == 256 * (x * y)) by (nonlinear_arith);
    }
}

proof fn lemma_be_bytes_len(v: nat, n: nat)
    ensures
        be_bytes(v, n).len() == n,
    decreases n,
{
    if n > 0 {
        lemma_be_bytes_len(v / 256, (n - 1) as nat);
    }
}

proof fn lemma_uint_be_prefix(s: Seq<u8>, t: Seq<u8>, n: nat)
    requires
        n <= s.len(),
    ensures
        uint_be(s + t, n) == uint_be(s, n),
    decreases n,
{
    if n > 0 {
        lemma_uint_be_prefix(s, t, (n - 1) as nat);
        assert((s + t)[n - 1] == s[n - 1]);
    }
}

/// Reading `n` bytes back gives the value modulo `256^n`.
pub proof fn lemma_uint_be_of_be_bytes(v: nat, n: nat)
    ensures
        uint_be(be_bytes(v, n), n) == v % byte_bound(n),
    decreases n,
{
    lemma_byte_bound_mono(0, n);
    if n == 0 {
        lemma_small_mod(0, 1);
        assert(v % 1 == 0);
    } else {
        let head = be_bytes(v / 256, (n - 1) as nat);
        lemma_be_bytes_len(v / 256, (n - 1) as nat);
        lemma_uint_be_of_be_bytes(v / 256, (n - 1) as nat);
        lemma_uint_be_prefix(head, seq![(v % 256) as u8], (n - 1) as nat);
        assert(head.push((v % 256) as u8) =~= head + seq![(v % 256) as u8]);
        lemma_byte_bound_mono(0, (n - 1) as nat);
        lemma_mod_breakdown(v as int, 256, byte_bound((n - 1) as nat) as int);
    }
}

/// A fixed-width read of what `write_signed` emitted gives the value back,
/// for every value that `n` bytes hold as two's complement.
pub proof fn signed_round_trip(v: i64, n: nat, rest: Seq<u8>)
    requires
        1 <= n <= 8,
        -byte_bound(n) <= 2 * v < byte_bound(n),
    ensures
        signed_read(signed_wire(v, n) + rest, n) == Ok::<int, DecodeError>(v as int),
        signed_wire(v, n).len() == n,
{
    let u = (v as u64) as nat;
    let w = signed_wire(v, n);
    lemma_be_bytes_len(u, n);
    lemma_uint_be_prefix(w, rest, n);
    lemma_uint_be_of_be_bytes(u, n);
    lemma_byte_bound_mono(n, 8);
    lemma_byte_bound_mono(0, n);
    let m = byte_bound(n);
    if v >= 0 {
        lemma_small_mod(u, m);
    } else {
        assert((v as u64) as int == v as int + 0x1_0000_0000_0000_0000) by (bit_vector)
            requires
                v < 0,
        ;
        lemma_byte_bound_16();
        lemma_byte_bound_add(n, (8 - n) as nat);
        assert(byte_bound(8) == 0x1_0000_0000_0000_0000) by {
            reveal_with_fuel(byte_bound, 9);
        }
        let q = byte_bound((8 - n) as nat);
        lemma_byte_bound_mono(0, (8 - n) as nat);
        assert(u == m * (q - 1) + (v + m)) by (nonlinear_arith)
            requires
                u == v + 0x1_0000_0000_0000_0000,
                m * q == 0x1_0000_0000_0000_0000,
        ;
        lemma_mod_multiples_vanish(q - 1, v + m, m as int);
        lemma_small_mod((v + m) as nat, m);
    }
}

/// A fixed-width unsigned read of what `write_signed` emitted for a
/// non-negative value below `256^n` gives the value back.
pub proof fn unsigned_round_trip(v: i64, n: nat, rest: Seq<u8>)
    requires
        1 <= n <= 8,
        0 <= v < byte_bound(n),
    ensures
        fixed_read(signed_wire(v, n) + rest, n) == Ok::<nat, DecodeError>(v as nat),
        signed_wire(v, n).len() == n,
{
    let u = (v as u64) as nat;
    let w = signed_wire(v, n);
    lemma_be_bytes_len(u, n);
    lemma_uint_be_prefix(w, rest, n);
    lemma_uint_be_of_be_bytes(u, n);
    lemma_small_mod(u, byte_bound(n));
}

} // verus!

//! Primitive writers: fixed-width little-endian integers and LEB128 integers.
use vstd::prelude::*;

verus! {

/// The `k` low bytes of `n`, least significant first.
pub open spec fn le_bytes(n: nat, k: nat) -> Seq<u8>
    decreases k,
{
    if k == 0 {
        seq![]
    } else {
        seq![(n % 256) as u8] + le_bytes(n / 256, (k - 1) as nat)
    }
}

/// Unsigned LEB128: seven bits per byte, low group first, continuation bit on all but the last.
pub open spec fn leb_u(n: nat) -> Seq<u8>
    decreases n,
{
    if n < 128 {
        seq![n as u8]
    } else {
        seq![(n % 128 + 128) as u8] + leb_u(n / 128)
    }
}

pub open spec fn abs(v: int) -> nat {
    if v < 0 {
        (-v) as nat
    } else {
        v as nat
    }
}

/// Signed LEB128: groups are taken with an arithmetic shift until the rest fits the
/// sign-extended last group, i.e. lies in `[-64, 64)`.
pub open spec fn leb_s(v: int) -> Seq<u8>
    decreases abs(v),
{
    if -64 <= v < 64 {
        seq![(v % 128) as u8]
    } else {
        seq![(v % 128 + 128) as u8] + leb_s(v / 128)
    }
}

/// Reference decoder for unsigned LEB128: the seven-bit groups, low group first.
pub open spec fn decode_leb_u(s: Seq<u8>) -> nat
    decreases s.len(),
{
    if s.len() == 0 {
        0
    } else {
        (s[0] % 128) as nat + 128 * decode_leb_u(s.drop_first())
    }
}

/// Reference decoder for signed LEB128: the groups as in `decode_leb_u`, with the
/// last group's bit 6 read as its sign.
pub open spec fn decode_leb_s(s: Seq<u8>) -> int
    decreases s.len(),
{
    if s.len() <= 1 {
        if s.len() == 0 {
            0
        } else if s[0] % 128 >= 64 {
            s[0] % 128 - 128
        } else {
            (s[0] % 128) as int
        }
    } else {
        (s[0] % 128) + 128 * decode_leb_s(s.drop_first())
    }
}

/// Every byte but the last of an encoding has the continuation bit set, the last has it clear.
pub open spec fn leb_framed(s: Seq<u8>) -> bool {
    &&& s.len() >= 1
    &&& s[s.len() - 1] < 128
    &&& forall|i: int| 0 <= i < s.len() - 1 ==> s[i] >= 128
}

/// An unsigned encoding is as short as possible: a last group of zero bits would be redundant.
pub open spec fn leb_u_minimal(s: Seq<u8>) -> bool {
    s.len() > 1 ==> s[s.len() - 1] != 0
}

/// A signed encoding is as short as possible: its last group is not a mere sign extension
/// of the group before it.
pub open spec fn leb_s_minimal(s: Seq<u8>) -> bool {
    s.len() > 1 ==> {
        let last = s[s.len() - 1];
        let prev = s[s.len() - 2] % 128;
        !(last == 0 && prev < 64) && !(last == 0x7f && prev >= 64)
    }
}

proof fn lemma_leb_u(n: nat)
    ensures
        decode_leb_u(leb_u(n)) == n,
        leb_framed(leb_u(n)),
        leb_u_minimal(leb_u(n)),
    decreases n,
{
    let s = leb_u(n);
    if n >= 128 {
        lemma_leb_u(n / 128);
        assert(s.drop_first() =~= leb_u(n / 128));
        assert(s[0] == (n % 128 + 128) as u8);
        assert(s[0] % 128 == n % 128);
        assert(n == n % 128 + 128 * (n / 128));
        assert(decode_leb_u(s) == (s[0] % 128) as nat + 128 * decode_leb_u(s.drop_first()));
        let t = leb_u(n / 128);
        assert forall|i: int| 0 <= i < s.len() - 1 implies s[i] >= 128 by {
            if i > 0 {
                assert(s[i] == t[i - 1]);
            }
        }
        assert(decode_leb_u(s) == n);
        assert(s[s.len() - 1] == t[t.len() - 1]);
        if t.len() == 1 {
            assert(t[0] == (n / 128) as u8);
        }
    } else {
        assert(s.drop_first() =~= Seq::<u8>::empty());
        assert(decode_leb_u(Seq::<u8>::empty()) == 0);
        assert(s[0] == n as u8);
        assert(decode_leb_u(s) == (s[0] % 128) as nat + 128 * decode_leb_u(s.drop_first()));
        assert(decode_leb_u(s) == n);
    }
}

proof fn lemma_leb_s(v: int)
    ensures
        decode_leb_s(leb_s(v)) == v,
        leb_framed(leb_s(v)),
        leb_s_minimal(leb_s(v)),
    decreases abs(v),
{
    let s = leb_s(v);
    if !(-64 <= v < 64) {
        lemma_leb_s(v / 128);
        let t = leb_s(v / 128);
        assert(s.drop_first() =~= t);
        assert(s[s.len() - 1] == t[t.len() - 1]);
        if t.len() == 1 {
            let w = v / 128;
            assert(s[0] % 128 == v % 128);
            assert(v == 128 * w + v % 128);
            assert(t[0] == (w % 128) as u8);
        } else {
            assert(s[s.len() - 2] == t[t.len() - 2]);
        }
        assert forall|i: int| 0 <= i < s.len() - 1 implies s[i] >= 128 by {
            if i > 0 {
                assert(s[i] == t[i - 1]);
            }
        }
    }
}

/// Decoding the unsigned LEB128 encoding of any 32- or 64-bit unsigned value with the
/// reference decoder gives the value back; the encoding is framed by its continuation bits
/// and has no redundant last group.
pub proof fn lemma_leb128_unsigned_round_trip(v: u64)
    ensures
        decode_leb_u(leb_u(v as nat)) == v,
        leb_framed(leb_u(v as nat)),
        leb_u_minimal(leb_u(v as nat)),
{
    lemma_leb_u(v as nat);
}

/// Decoding the signed LEB128 encoding of any 32- or 64-bit signed value with the
/// reference decoder gives the value back; the encoding is framed by its continuation bits
/// and has no redundant last group.
pub proof fn lemma_leb128_signed_round_trip(v: i64)
    ensures
        decode_leb_s(leb_s(v as int)) == v,
        leb_framed(leb_s(v as int)),
        leb_s_minimal(leb_s(v as int)),
{
    lemma_leb_s(v as int);
}

/// Appends one byte.
pub fn write_uint8(buf: &mut Vec<u8>, u: u8) -> (r: usize)
    ensures
        final(buf)@ == old(buf)@ + seq![u],
        r == 1,
{
    buf.push(u);
    assert(buf@ =~= old(buf)@ + seq![u]);
    1
}

/// Appends the `k` low bytes of `n`, least significant first.
fn write_le(buf: &mut Vec<u8>, n: u64, k: usize)
    ensures
        final(buf)@ == old(buf)@ + le_bytes(n as nat, k as nat),
{
    let mut v: u64 = n;
    let mut i: usize = 0;
    while i < k
        invariant
            i <= k,
            old(buf)@ + le_bytes(n as nat, k as nat) == buf@ + le_bytes(v as nat, (k - i) as nat),
        decreases k - i,
    {
        let ghost before = buf@;
        buf.push((v % 256) as u8);
        assert(le_bytes(v as nat, (k - i) as nat) == seq![(v % 256) as u8] + le_bytes(
            (v / 256) as nat,
            (k - i - 1) as nat,
        ));
        assert(before + le_bytes(v as nat, (k - i) as nat) =~= buf@ + le_bytes(
            (v / 256) as nat,
            (k - i - 1) as nat,
        ));
        v = v / 256;
        i = i + 1;
    }
    assert(le_bytes(v as nat, 0) =~= seq![]);
    assert(buf@ + seq![] =~= buf@);
}

/// Appends `u` as two little-endian bytes.
pub fn write_uint16(buf: &mut Vec<u8>, u: u16) -> (r: usize)
    ensures
        final(buf)@ == old(buf)@ + le_bytes(u as nat, 2),
        r == 2,
{
    write_le(buf, u as u64, 2);
    2
}

/// Appends `u` as four little-endian bytes.
pub fn write_uint32(buf: &mut Vec<u8>, u: u32) -> (r: usize)
    ensures
        final(buf)@ == old(buf)@ + le_bytes(u as nat, 4),
        r == 4,
{
    write_le(buf, u as u64, 4);
    4
}

/// Appends `u` as eight little-endian bytes.
pub fn write_uint64(buf: &mut Vec<u8>, u: u64) -> (r: usize)
    ensures
        final(buf)@ == old(buf)@ + le_bytes(u as nat, 8),
        r == 8,
{
    write_le(buf, u, 8);
    8
}

/// Appends the unsigned LEB128 encoding of `u`; lengths and counts are written with it.
pub fn write_varusize(buf: &mut Vec<u8>, u: usize) -> (r: usize)
    ensures
        final(buf)@ == old(buf)@ + leb_u(u as nat),
        r == leb_u(u as nat).len(),
{
    let start = buf.len();
    let mut v: usize = u;
    while v >= 128
        invariant
            old(buf)@ + leb_u(u as nat) == buf@ + leb_u(v as nat),
            start == old(buf)@.len(),
        decreases v,
    {
        let ghost before = buf@;
        buf.push((v % 128 + 128) as u8);
        assert(before + leb_u(v as nat) =~= buf@ + leb_u((v / 128) as nat));
        v = v / 128;
    }
    buf.push(v as u8);
    assert(buf@ =~= old(buf)@ + leb_u(u as nat));
    buf.len() - start
}

/// Appends the unsigned LEB128 encoding of `u`.
pub fn write_varuint32(buf: &mut Vec<u8>, u: u32) -> (r: usize)
    ensures
        final(buf)@ == old(buf)@ + leb_u(u as nat),
        r == leb_u(u as nat).len(),
{
    write_varusize(buf, u as usize)
}

/// Appends the signed LEB128 encoding of `u`.
pub fn write_varint64(buf: &mut Vec<u8>, u: i64) -> (r: usize)
    ensures
        final(buf)@ == old(buf)@ + leb_s(u as int),
        r == leb_s(u as int).len(),
{
    let start = buf.len();
    let mut v: i64 = u;
    while v < -64 || v >= 64
        invariant
            old(buf)@ + leb_s(u as int) == buf@ + leb_s(v as int),
            start == old(buf)@.len(),
        decreases abs(v as int),
    {
        let ghost before = buf@;
        let low: i64 = match v.checked_rem_euclid(128) {
            Some(d) => d,
            None => 0,
        };
        buf.push((low + 128) as u8);
        assert(before + leb_s(v as int) =~= buf@ + leb_s(v as int / 128));
        v = match v.checked_div_euclid(128) {
            Some(q) => q,
            None => 0,
        };
    }
    let low: i64 = match v.checked_rem_euclid(128) {
        Some(d) => d,
        None => 0,
    };
    buf.push(low as u8);
    assert(buf@ =~= old(buf)@ + leb_s(u as int));
    buf.len() - start
}

/// Appends the signed LEB128 encoding of `u`.
pub fn write_varint32(buf: &mut Vec<u8>, u: i32) -> (r: usize)
    ensures
        final(buf)@ == old(buf)@ + leb_s(u as int),
        r == leb_s(u as int).len(),
{
    write_varint64(buf, u as i64)
}

/// Appends a one-bit flag as a byte.
pub fn write_varuint1(buf: &mut Vec<u8>, u: u8) -> (r: usize)
    ensures
        final(buf)@ == old(buf)@ + seq![u],
        r == 1,
{
    write_uint8(buf, u)
}

/// Appends a seven-bit unsigned value as a byte.
pub fn write_varuint7(buf: &mut Vec<u8>, u: u8) -> (r: usize)
    ensures
        final(buf)@ == old(buf)@ + seq![u],
        r == 1,
{
    write_uint8(buf, u)
}

/// Appends `i` as a single byte `i + 128`: the one-byte signed LEB128 form for `-64 <= i < 0`,
/// which is how the negative type tags are written.
pub fn write_varint7(buf: &mut Vec<u8>, i: i8) -> (r: usize)
    ensures
        final(buf)@ == old(buf)@ + seq![(i + 128) as u8],
        -64 <= i < 0 ==> final(buf)@ == old(buf)@ + leb_s(i as int),
        r == 1,
{
    write_uint8(buf, ((i as i16) + 128) as u8)
}

/// Appends the bytes of `u` unchanged.
pub fn write_slice(buf: &mut Vec<u8>, u: &[u8]) -> (r: usize)
    ensures
        final(buf)@ == old(buf)@ + u@,
        r == u@.len(),
{
    let mut i: usize = 0;
    while i < u.len()
        invariant
            i <= u@.len(),
            buf@ == old(buf)@ + u@.take(i as int),
        decreases u@.len() - i,
    {
        buf.push(u[i]);
        assert(u@.take(i + 1) =~= u@.take(i as int).push(u@[i as int]));
        assert(buf@ =~= old(buf)@ + u@.take(i + 1));
        i = i + 1;
    }
    assert(u@.take(i as int) =~= u@);
    i
}

} // verus!

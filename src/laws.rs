//! Properties that relate encoding and decoding.
use vstd::prelude::*;

use crate::error::DecodeVarIntError;
use crate::traits::{decoded_as, DecodeVarInt, EncodeVarInt};
use crate::varint::VarInt;
use crate::wire::{
    answer_at, answer_continues, byte_answers, continues, decode_answers, decode_bytes,
    decode_from, encoded_len, encoding, gathered, group, group_bits, is_read_sequence,
    lemma_decode_skip,
};

verus! {

/// A group fits in seven bits.
proof fn lemma_group_small(v: u32, i: nat)
    ensures
        group(v, i) < 128,
{
    let s = (7 * i) as u32;
    assert((v >> s) & 0x7f < 128) by (bit_vector);
}

/// A byte built from a group gives the group back, and carries the
/// continuation flag exactly when it was set.
proof fn lemma_group_byte(g: u32)
    requires
        g < 128,
    ensures
        (((g as u8) | 0x80) & 0x7f) as u32 == g,
        continues((g as u8) | 0x80),
        ((g as u8) & 0x7f) as u32 == g,
        !continues(g as u8),
{
    assert((((g as u8) | 0x80) & 0x7f) as u32 == g) by (bit_vector)
        requires
            g < 128,
    ;
    assert(((g as u8) | 0x80) & 0x80 != 0) by (bit_vector);
    assert(((g as u8) & 0x7f) as u32 == g) by (bit_vector)
        requires
            g < 128,
    ;
    assert((g as u8) & 0x80 == 0) by (bit_vector)
        requires
            g < 128,
    ;
}

/// The bits that the first `n` bytes of the encoding of `v` carry, placed
/// back, are the groups of `v` below `n`.
proof fn lemma_encoding_groups<E>(v: u32, n: nat)
    requires
        n <= encoded_len(v),
    ensures
        gathered(byte_answers::<E>(encoding(v)), n) == low_groups(v, n),
    decreases n,
{
    if n > 0 {
        let j = (n - 1) as nat;
        lemma_encoding_groups::<E>(v, j);
        lemma_group_small(v, j);
        lemma_group_byte(group(v, j));
    }
}

/// The groups of `v` below `n`, each in its place.
spec fn low_groups(v: u32, n: nat) -> u32
    decreases n,
{
    if n == 0 {
        0
    } else {
        low_groups(v, (n - 1) as nat) | (group(v, (n - 1) as nat) << (7 * (n - 1)) as u32)
    }
}

/// The groups of `v` below its encoded length make up `v`.
proof fn lemma_low_groups_whole(v: u32)
    ensures
        low_groups(v, encoded_len(v)) == v,
{
    reveal_with_fuel(low_groups, 6);
    if v < 0x80 {
        assert(0 | ((v >> 0) & 0x7f) << 0 == v) by (bit_vector)
            requires
                v < 0x80,
        ;
    } else if v < 0x4000 {
        assert((0 | ((v >> 0) & 0x7f) << 0) | ((v >> 7) & 0x7f) << 7 == v) by (bit_vector)
            requires
                v < 0x4000,
        ;
    } else if v < 0x20_0000 {
        assert(((0 | ((v >> 0) & 0x7f) << 0) | ((v >> 7) & 0x7f) << 7) | ((v >> 14) & 0x7f) << 14
            == v) by (bit_vector)
            requires
                v < 0x20_0000,
        ;
    } else if v < 0x1000_0000 {
        assert((((0 | ((v >> 0) & 0x7f) << 0) | ((v >> 7) & 0x7f) << 7) | ((v >> 14) & 0x7f)
            << 14) | ((v >> 21) & 0x7f) << 21 == v) by (bit_vector)
            requires
                v < 0x1000_0000,
        ;
    } else {
        assert(((((0 | ((v >> 0) & 0x7f) << 0) | ((v >> 7) & 0x7f) << 7) | ((v >> 14) & 0x7f)
            << 14) | ((v >> 21) & 0x7f) << 21) | ((v >> 28) & 0x7f) << 28 == v) by (bit_vector);
    }
}

/// Decoding the encoding of any 32-bit pattern gives the pattern back, and
/// reports as read exactly the bytes of the encoding.
pub proof fn lemma_round_trip<E>(v: u32)
    ensures
        decode_bytes::<E>(encoding(v)) == Ok::<(u32, usize), DecodeVarIntError<E>>(
            (v, encoding(v).len() as usize),
        ),
{
    let e = encoding(v);
    let n = encoded_len(v);
    let s = byte_answers::<E>(e);
    let k = (n - 1) as nat;
    assert forall|j: int| 0 <= j < k implies #[trigger] answer_continues(s[j]) by {
        lemma_group_small(v, j as nat);
        lemma_group_byte(group(v, j as nat));
    }
    lemma_decode_skip(s, k);
    lemma_encoding_groups::<E>(v, n);
    lemma_group_small(v, k);
    lemma_group_byte(group(v, k));
    lemma_low_groups_whole(v);
    assert(s[k as int] == answer_at::<E>(e, k as int));
}

/// A signed integer, encoded as its bit pattern and decoded as a signed
/// integer or as a `VarInt`, comes back unchanged, with every byte read.
pub proof fn lemma_signed_round_trip<E>(x: i32)
    ensures
        decoded_as(
            decode_bytes::<E>(encoding(x.var_int_bits())),
            |b: u32| i32::from_var_int_bits(b),
        ) == Ok::<(i32, usize), DecodeVarIntError<E>>((x, encoding(x.var_int_bits()).len() as usize)),
        decoded_as(
            decode_bytes::<E>(encoding(VarInt(x).var_int_bits())),
            |b: u32| VarInt::from_var_int_bits(b),
        ) == Ok::<(VarInt, usize), DecodeVarIntError<E>>(
            (VarInt(x), encoding(VarInt(x).var_int_bits()).len() as usize),
        ),
{
    lemma_round_trip::<E>(x as u32);
    assert((x as u32) as i32 == x) by (bit_vector);
}

/// Above a bound that is a power of two, every group of a smaller value is zero.
proof fn lemma_group_above(v: u32, m: u32, j: nat)
    requires
        m <= 7 * j <= 28,
        v < (1u32 << m),
    ensures
        group(v, j) == 0,
{
    let s = (7 * j) as u32;
    assert((v >> s) & 0x7f == 0) by (bit_vector)
        requires
            m <= s,
            s <= 28,
            v < (1u32 << m),
    ;
}

/// A value with a bit set in group `j` and none above it has that group nonzero.
proof fn lemma_group_top(v: u32, j: nat)
    requires
        j <= 4,
        v >= (1u32 << (7 * j) as u32),
        j < 4 ==> v < (1u32 << (7 * j + 7) as u32),
    ensures
        group(v, j) != 0,
{
    let s = (7 * j) as u32;
    if j < 4 {
        assert((v >> s) & 0x7f != 0) by (bit_vector)
            requires
                s <= 21,
                v >= (1u32 << s),
                v < (1u32 << (s + 7) as u32),
        ;
    } else {
        assert((v >> 28u32) & 0x7f != 0) by (bit_vector)
            requires
                v >= (1u32 << 28u32),
        ;
    }
}

/// The encoding of `v` has length one for zero, and otherwise one more than
/// the index of the highest nonzero group of `v`; it never exceeds five.
pub proof fn lemma_minimal_length(v: u32)
    ensures
        1 <= encoding(v).len() <= 5,
        v == 0 ==> encoding(v).len() == 1,
        v != 0 ==> group(v, (encoding(v).len() - 1) as nat) != 0,
        forall|j: nat| encoding(v).len() <= j < 5 ==> #[trigger] group(v, j) == 0,
{
    let n = encoded_len(v);
    assert((1u32 << 7u32) == 0x80 && (1u32 << 14u32) == 0x4000 && (1u32 << 21u32) == 0x20_0000
        && (1u32 << 28u32) == 0x1000_0000 && (1u32 << 0u32) == 1) by (bit_vector);
    assert forall|j: nat| n <= j < 5 implies #[trigger] group(v, j) == 0 by {
        lemma_group_above(v, (7 * n) as u32, j);
    }
    if v != 0 {
        lemma_group_top(v, (n - 1) as nat);
    }
}

/// Values below 128 take one byte, below 16384 two, below 2097152 three,
/// below 268435456 four, and every other 32-bit pattern five.
pub proof fn lemma_length_bands(v: u32)
    ensures
        v <= 127 ==> encoding(v).len() == 1,
        128 <= v <= 16383 ==> encoding(v).len() == 2,
        16384 <= v <= 2097151 ==> encoding(v).len() == 3,
        2097152 <= v <= 268435455 ==> encoding(v).len() == 4,
        268435456 <= v ==> encoding(v).len() == 5,
{
}

/// Five answers that all carry a continuation flag make a decode fail as too
/// large, whatever their data bits.
pub proof fn lemma_five_continued_too_large<E>(t: Seq<Result<Option<u8>, E>>)
    requires
        t.len() >= 5,
        forall|j: int| 0 <= j < 5 ==> #[trigger] answer_continues(t[j]),
    ensures
        decode_answers(t) == Err::<(u32, usize), DecodeVarIntError<E>>(DecodeVarIntError::TooLarge),
{
    lemma_decode_skip(t, 5);
}

/// Five bytes that all carry a continuation flag are rejected as too large.
pub proof fn lemma_five_continued_bytes_too_large<E>(bs: Seq<u8>)
    requires
        bs.len() == 5,
        forall|j: int| 0 <= j < 5 ==> #[trigger] continues(bs[j]),
    ensures
        decode_bytes::<E>(bs) == Err::<(u32, usize), DecodeVarIntError<E>>(DecodeVarIntError::TooLarge),
{
    let s = byte_answers::<E>(bs);
    assert forall|j: int| 0 <= j < 5 implies #[trigger] answer_continues(s[j]) by {
        assert(continues(bs[j]));
    }
    lemma_five_continued_too_large(s);
}

/// Fewer than five bytes, all carrying a continuation flag, are rejected as
/// not enough.
pub proof fn lemma_truncated_not_enough<E>(bs: Seq<u8>)
    requires
        bs.len() < 5,
        forall|j: int| 0 <= j < bs.len() ==> #[trigger] continues(bs[j]),
    ensures
        decode_bytes::<E>(bs) == Err::<(u32, usize), DecodeVarIntError<E>>(
            DecodeVarIntError::NotEnoughBytesInTheBuffer,
        ),
{
    let s = byte_answers::<E>(bs);
    assert forall|j: int| 0 <= j < bs.len() implies #[trigger] answer_continues(s[j]) by {
        assert(continues(bs[j]));
    }
    lemma_decode_skip(s, bs.len());
}

/// In the answers that one decode reads, an answer with no byte is the last
/// one, and the decode then fails as not enough.
pub proof fn lemma_no_read_after_exhaustion<E>(t: Seq<Result<Option<u8>, E>>, k: int)
    requires
        is_read_sequence(t),
        0 <= k < t.len(),
        t[k] == Ok::<Option<u8>, E>(None),
    ensures
        k == t.len() - 1,
        decode_answers(t) == Err::<(u32, usize), DecodeVarIntError<E>>(
            DecodeVarIntError::NotEnoughBytesInTheBuffer,
        ),
{
    if k < t.len() - 1 {
        assert(answer_continues(t[k]));
    }
    lemma_decode_skip(t, k as nat);
}

/// A decode that succeeds from index `i`, with the bits of the answers below
/// `i` gathered, reports the bits of exactly the answers it read.
proof fn lemma_decode_ok_gathers<E>(t: Seq<Result<Option<u8>, E>>, i: nat, acc: u32)
    requires
        i <= 5,
        i <= t.len(),
        acc == gathered(t, i),
    ensures
        decode_from(t, i, acc) matches Ok((v, n)) ==> i < n <= 5 && n <= t.len() && v == gathered(
            t,
            n as nat,
        ),
    decreases 5 - i,
{
    if i < 5 && i < t.len() {
        if let Ok(Some(b)) = t[i as int] {
            assert(gathered(t, i + 1) == acc | group_bits(b, i));
            lemma_decode_ok_gathers(t, i + 1, acc | group_bits(b, i));
        }
    }
}

/// The bits gathered from fewer than five answers lie below their seven-bit
/// groups.
proof fn lemma_gathered_below<E>(t: Seq<Result<Option<u8>, E>>, n: nat)
    requires
        n <= 4,
    ensures
        gathered(t, n) < (1u32 << (7 * n) as u32),
    decreases n,
{
    if n == 0 {
        assert(0u32 < (1u32 << 0u32)) by (bit_vector);
    } else {
        let k = (n - 1) as nat;
        lemma_gathered_below(t, k);
        let a = gathered(t, k);
        let b = crate::wire::answer_byte(t[k as int]);
        let s = (7 * k) as u32;
        assert((a | (((b & 0x7f) as u32) << s)) < (1u32 << (s + 7) as u32)) by (bit_vector)
            requires
                s <= 21,
                a < (1u32 << s),
        ;
    }
}

/// No byte sequence shorter than the encoding of a value decodes to that
/// value: a decode that yields `v` after reading `n` bytes has read at least
/// as many as the encoding of `v` holds.
pub proof fn lemma_no_shorter_encoding<E>(bs: Seq<u8>, v: u32, n: usize)
    requires
        decode_bytes::<E>(bs) == Ok::<(u32, usize), DecodeVarIntError<E>>((v, n)),
    ensures
        encoding(v).len() <= n,
{
    let s = byte_answers::<E>(bs);
    lemma_decode_ok_gathers(s, 0, 0);
    if n < 5 {
        lemma_gathered_below(s, n as nat);
        assert((1u32 << 7u32) == 0x80 && (1u32 << 14u32) == 0x4000 && (1u32 << 21u32) == 0x20_0000
            && (1u32 << 28u32) == 0x1000_0000) by (bit_vector);
    }
}

} // verus!

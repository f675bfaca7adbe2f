//! The mathematical model of the wire format.
use vstd::prelude::*;

use crate::error::DecodeVarIntError;

verus! {

/// The `i`-th 7-bit group of `v`, least significant first.
pub open spec fn group(v: u32, i: nat) -> u32 {
    (v >> (7 * i) as u32) & 0x7f
}

/// The number of bytes that encode `v`: one more than the index of its highest
/// nonzero group, and one for zero.
pub open spec fn encoded_len(v: u32) -> nat {
    if v < 0x80 {
        1
    } else if v < 0x4000 {
        2
    } else if v < 0x20_0000 {
        3
    } else if v < 0x1000_0000 {
        4
    } else {
        5
    }
}

/// The byte sequence that encodes `v`: group `i` in the low bits of byte `i`,
/// the continuation flag set on every byte but the last.
pub open spec fn encoding(v: u32) -> Seq<u8> {
    Seq::new(
        encoded_len(v),
        |i: int|
            if i + 1 < encoded_len(v) {
                (group(v, i as nat) as u8) | 0x80
            } else {
                group(v, i as nat) as u8
            },
    )
}

/// Whether byte `b` carries the continuation flag.
pub open spec fn continues(b: u8) -> bool {
    b & 0x80 != 0
}

/// The data bits of byte `b`, placed as group `i` of a 32-bit value.
pub open spec fn group_bits(b: u8, i: nat) -> u32 {
    ((b & 0x7f) as u32) << (7 * i) as u32
}

/// The byte that an answer of a source carries, if it carries one.
pub open spec fn answer_byte<E>(a: Result<Option<u8>, E>) -> u8 {
    match a {
        Ok(Some(b)) => b,
        _ => 0,
    }
}

/// Whether an answer of a source is a byte with the continuation flag.
pub open spec fn answer_continues<E>(a: Result<Option<u8>, E>) -> bool {
    match a {
        Ok(Some(b)) => continues(b),
        _ => false,
    }
}

/// The data bits gathered from the first `n` answers of `t`.
pub open spec fn gathered<E>(t: Seq<Result<Option<u8>, E>>, n: nat) -> u32
    decreases n,
{
    if n == 0 {
        0
    } else {
        gathered(t, (n - 1) as nat) | group_bits(answer_byte(t[n - 1]), (n - 1) as nat)
    }
}

/// The outcome of decoding from the answers `t` of a source, where answer `i`
/// is what the source gave for index `i`, starting at index `i` with the bits
/// `acc` gathered so far. Past the end of `t` the source has no more bytes.
pub open spec fn decode_from<E>(t: Seq<Result<Option<u8>, E>>, i: nat, acc: u32) -> Result<
    (u32, usize),
    DecodeVarIntError<E>,
>
    decreases 5 - i,
{
    if i >= 5 {
        Err(DecodeVarIntError::TooLarge)
    } else if i >= t.len() {
        Err(DecodeVarIntError::NotEnoughBytesInTheBuffer)
    } else {
        match t[i as int] {
            Err(e) => Err(DecodeVarIntError::Custom(e)),
            Ok(None) => Err(DecodeVarIntError::NotEnoughBytesInTheBuffer),
            Ok(Some(b)) => if continues(b) {
                decode_from(t, i + 1, acc | group_bits(b, i))
            } else {
                Ok((acc | group_bits(b, i), (i + 1) as usize))
            },
        }
    }
}

/// The outcome of decoding from a source whose answers are `t`.
pub open spec fn decode_answers<E>(t: Seq<Result<Option<u8>, E>>) -> Result<
    (u32, usize),
    DecodeVarIntError<E>,
> {
    decode_from(t, 0, 0)
}

/// What a source that holds the bytes `bs` answers for index `i`.
pub open spec fn answer_at<E>(bs: Seq<u8>, i: int) -> Result<Option<u8>, E> {
    if 0 <= i < bs.len() {
        Ok(Some(bs[i]))
    } else {
        Ok(None)
    }
}

/// The answers of a source that holds the bytes `bs` and nothing after them,
/// for each index that a decode may ask for.
pub open spec fn byte_answers<E>(bs: Seq<u8>) -> Seq<Result<Option<u8>, E>> {
    Seq::new(5, |i: int| answer_at(bs, i))
}

/// The outcome of decoding the bytes `bs`.
pub open spec fn decode_bytes<E>(bs: Seq<u8>) -> Result<(u32, usize), DecodeVarIntError<E>> {
    decode_answers(byte_answers(bs))
}

/// Whether `t` is the sequence of answers that one decode reads: at most five,
/// every one but the last a byte with the continuation flag.
pub open spec fn is_read_sequence<E>(t: Seq<Result<Option<u8>, E>>) -> bool {
    &&& 1 <= t.len() <= 5
    &&& forall|j: int| 0 <= j < t.len() - 1 ==> #[trigger] answer_continues(t[j])
    &&& t.len() < 5 ==> !answer_continues(t.last())
}

/// Whether `reader` may answer `t[j]` when asked for index `j`, for each `j`.
pub open spec fn may_answer<E, F: FnMut(usize) -> Result<Option<u8>, E>>(
    reader: F,
    t: Seq<Result<Option<u8>, E>>,
) -> bool {
    forall|j: int| 0 <= j < t.len() ==> call_ensures(reader, (j as usize,), #[trigger] t[j])
}

/// Whether `reader` may be asked for the next index after any answers that it
/// may give, as long as all of them are bytes with the continuation flag and
/// fewer than five: what a decode needs of its source, and no more.
pub open spec fn may_ask_next<E, F: FnMut(usize) -> Result<Option<u8>, E>>(reader: F) -> bool {
    forall|t: Seq<Result<Option<u8>, E>>|
        #[trigger] may_answer(reader, t) && t.len() < 5 && (forall|j: int|
            0 <= j < t.len() ==> answer_continues(t[j])) ==> call_requires(reader, (t.len() as usize,))
}

/// Skipping over answers that continue keeps the outcome.
pub proof fn lemma_decode_skip<E>(t: Seq<Result<Option<u8>, E>>, i: nat)
    requires
        i <= t.len(),
        i <= 5,
        forall|j: int| 0 <= j < i ==> #[trigger] answer_continues(t[j]),
    ensures
        decode_answers(t) == decode_from(t, i, gathered(t, i)),
    decreases i,
{
    if i > 0 {
        lemma_decode_skip(t, (i - 1) as nat);
        assert(answer_continues(t[i - 1]));
    }
}

/// The bits gathered from a prefix do not depend on what follows it.
pub proof fn lemma_gathered_prefix<E>(t: Seq<Result<Option<u8>, E>>, s: Seq<Result<Option<u8>, E>>, n: nat)
    requires
        n <= t.len(),
        n <= s.len(),
        forall|j: int| 0 <= j < n ==> t[j] == s[j],
    ensures
        gathered(t, n) == gathered(s, n),
    decreases n,
{
    if n > 0 {
        lemma_gathered_prefix(t, s, (n - 1) as nat);
    }
}

/// Two sources that agree on every answer that one decode reads from the
/// first give the same outcome.
pub proof fn lemma_decode_read_sequence<E>(t: Seq<Result<Option<u8>, E>>, s: Seq<Result<Option<u8>, E>>)
    requires
        is_read_sequence(t),
        t.len() <= s.len(),
        forall|j: int| 0 <= j < t.len() ==> t[j] == s[j],
    ensures
        decode_answers(t) == decode_answers(s),
{
    let k = (t.len() - 1) as nat;
    assert forall|j: int| 0 <= j < k implies #[trigger] answer_continues(s[j]) by {
        assert(answer_continues(t[j]));
    }
    lemma_decode_skip(t, k);
    lemma_decode_skip(s, k);
    lemma_gathered_prefix(t, s, k);
    assert(t[k as int] == s[k as int]);
    if answer_continues(t[k as int]) {
        let g = gathered(t, k) | group_bits(answer_byte(t[k as int]), k);
        assert(decode_from(t, 5, g) == decode_from(s, 5, g));
    }
}

} // verus!

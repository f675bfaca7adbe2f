//! Encoding and decoding of 32-bit bit patterns.
use vstd::prelude::*;

use crate::error::DecodeVarIntError;
use crate::wire::{
    answer_at, answer_continues, byte_answers, decode_answers, decode_bytes, encoded_len, encoding,
    gathered, is_read_sequence, lemma_decode_read_sequence, may_ask_next, lemma_decode_skip,
    lemma_gathered_prefix, may_answer,
};

verus! {

/// Encodes the bit pattern `v` into its minimal byte sequence.
pub fn encode_bits(v: u32) -> (r: Vec<u8>)
    ensures
        r@ == encoding(v),
{
    let n: usize = if v < 0x80 {
        1
    } else if v < 0x4000 {
        2
    } else if v < 0x20_0000 {
        3
    } else if v < 0x1000_0000 {
        4
    } else {
        5
    };
    let mut out: Vec<u8> = Vec::new();
    let mut i: usize = 0;
    while i < n
        invariant
            n == encoded_len(v),
            i <= n,
            out@ =~= encoding(v).subrange(0, i as int),
        decreases n - i,
    {
        let g = ((v >> (7 * i) as u32) & 0x7f) as u8;
        let b = if i + 1 < n {
            g | 0x80
        } else {
            g
        };
        out.push(b);
        i += 1;
    }
    out
}

/// Decodes a bit pattern from `reader`, which answers, for each index from 0
/// up, with a byte, with `None` when it has no more bytes, or with an error of
/// its own. Reads stop at the first byte without the continuation flag, at the
/// first answer that is no byte, or after five bytes: the source is asked for
/// an index only after it answered every lower one with a byte that carries
/// the continuation flag. Returns the value and the number of bytes read.
pub fn decode_bits<E, F: FnMut(usize) -> Result<Option<u8>, E>>(reader: F) -> (r: Result<
    (u32, usize),
    DecodeVarIntError<E>,
>)
    requires
        may_ask_next(reader),
    ensures
        exists|t: Seq<Result<Option<u8>, E>>|
            {
                &&& is_read_sequence(t)
                &&& may_answer(reader, t)
                &&& r == decode_answers(t)
            },
{
    let mut source = reader;
    let ghost mut t: Seq<Result<Option<u8>, E>> = Seq::empty();
    let mut val: u32 = 0;
    let mut i: usize = 0;
    while i < 5
        invariant
            source == reader,
            may_ask_next(reader),
            i <= 5,
            t.len() == i,
            may_answer(reader, t),
            forall|j: int| 0 <= j < i ==> #[trigger] answer_continues(t[j]),
            val == gathered(t, i as nat),
        decreases 5 - i,
    {
        let a = source(i);
        proof {
            lemma_gathered_prefix(t, t.push(a), i as nat);
            t = t.push(a);
            lemma_decode_skip(t, i as nat);
        }
        match a {
            Err(e) => {
                let r = Err(DecodeVarIntError::Custom(e));
                assert(is_read_sequence(t) && may_answer(reader, t) && r == decode_answers(t));
                return r;
            },
            Ok(None) => {
                let r = Err(DecodeVarIntError::NotEnoughBytesInTheBuffer);
                assert(is_read_sequence(t) && may_answer(reader, t) && r == decode_answers(t));
                return r;
            },
            Ok(Some(byte)) => {
                val = val | (((byte & 0x7f) as u32) << (7 * i) as u32);
                if byte & 0x80 == 0 {
                    let r = Ok((val, i + 1));
                    assert(is_read_sequence(t) && may_answer(reader, t) && r == decode_answers(t));
                    return r;
                }
            },
        }
        i += 1;
    }
    proof {
        lemma_decode_skip(t, 5);
    }
    Err(DecodeVarIntError::TooLarge)
}

/// Decodes a bit pattern from the front of `bytes`; the bytes after the first
/// one without the continuation flag are not read.
pub fn decode_slice<E>(bytes: &[u8]) -> (r: Result<(u32, usize), DecodeVarIntError<E>>)
    ensures
        r == decode_bytes::<E>(bytes@),
{
    let reader = |i: usize| -> (a: Result<Option<u8>, E>)
        ensures
            a == answer_at::<E>(bytes@, i as int),
        {
            if i < bytes.len() {
                Ok(Some(bytes[i]))
            } else {
                Ok(None)
            }
        };
    let r = decode_bits(reader);
    proof {
        let t = choose|t: Seq<Result<Option<u8>, E>>|
            {
                &&& is_read_sequence(t)
                &&& may_answer(reader, t)
                &&& r == decode_answers(t)
            };
        let s = byte_answers::<E>(bytes@);
        assert forall|j: int| 0 <= j < t.len() implies t[j] == s[j] by {
            assert(call_ensures(reader, (j as usize,), t[j]));
        }
        lemma_decode_read_sequence(t, s);
    }
    r
}

} // verus!

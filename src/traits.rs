//! What a type needs to travel as a variable-length integer.
use vstd::prelude::*;

use crate::codec::{decode_bits, encode_bits};
use crate::error::DecodeVarIntError;
use crate::wire::{decode_answers, encoding, is_read_sequence, may_answer, may_ask_next};

verus! {

/// The outcome of a decode into a type, given the outcome of the decode of the
/// bit pattern and how the type is made from a pattern.
pub open spec fn decoded_as<T, E>(
    res: Result<(u32, usize), DecodeVarIntError<E>>,
    make: spec_fn(u32) -> T,
) -> Result<(T, usize), DecodeVarIntError<E>> {
    match res {
        Ok((bits, n)) => Ok((make(bits), n)),
        Err(e) => Err(e),
    }
}

/// A value that encodes as the 32-bit pattern `var_int_bits`.
pub trait EncodeVarInt {
    /// The bit pattern that this value encodes as.
    spec fn var_int_bits(&self) -> u32;

    /// Hands the encoding of this value to `write`, once, and returns what
    /// `write` returns.
    fn encode_var_int<F: FnOnce(&[u8]) -> R, R>(&self, write: F) -> (r: R)
        requires
            forall|s: &[u8]| s@ == encoding(self.var_int_bits()) ==> call_requires(write, (s,)),
        ensures
            exists|s: &[u8]| s@ == encoding(self.var_int_bits()) && call_ensures(write, (s,), r),
    ;
}

/// A value that is made from a decoded 32-bit pattern by `from_var_int_bits`.
pub trait DecodeVarInt: Sized {
    /// The value that the bit pattern `bits` decodes to.
    spec fn from_var_int_bits(bits: u32) -> Self;

    /// Decodes a value from `reader`, as `decode_bits` does, and returns it with
    /// the number of bytes read.
    fn decode_var_int<F: FnMut(usize) -> Result<Option<u8>, E>, E>(reader: F) -> (r: Result<
        (Self, usize),
        DecodeVarIntError<E>,
    >)
        requires
            may_ask_next(reader),
        ensures
            exists|t: Seq<Result<Option<u8>, E>>|
                {
                    &&& is_read_sequence(t)
                    &&& may_answer(reader, t)
                    &&& r == decoded_as(decode_answers(t), |b: u32| Self::from_var_int_bits(b))
                },
    ;
}

impl EncodeVarInt for u32 {
    open spec fn var_int_bits(&self) -> u32 {
        *self
    }

    fn encode_var_int<F: FnOnce(&[u8]) -> R, R>(&self, write: F) -> (r: R) {
        let bytes = encode_bits(*self);
        write(bytes.as_slice())
    }
}

impl EncodeVarInt for i32 {
    open spec fn var_int_bits(&self) -> u32 {
        *self as u32
    }

    fn encode_var_int<F: FnOnce(&[u8]) -> R, R>(&self, write: F) -> (r: R) {
        let bytes = encode_bits(#[verifier::truncate] (*self as u32));
        write(bytes.as_slice())
    }
}

impl DecodeVarInt for u32 {
    open spec fn from_var_int_bits(bits: u32) -> u32 {
        bits
    }

    fn decode_var_int<F: FnMut(usize) -> Result<Option<u8>, E>, E>(reader: F) -> (r: Result<
        (u32, usize),
        DecodeVarIntError<E>,
    >) {
        let r = decode_bits(reader);
        proof {
            let t = choose|t: Seq<Result<Option<u8>, E>>|
                {
                    &&& is_read_sequence(t)
                    &&& may_answer(reader, t)
                    &&& r == decode_answers(t)
                };
            assert(r == decoded_as(decode_answers(t), |b: u32| Self::from_var_int_bits(b)));
        }
        r
    }
}

impl DecodeVarInt for i32 {
    open spec fn from_var_int_bits(bits: u32) -> i32 {
        bits as i32
    }

    fn decode_var_int<F: FnMut(usize) -> Result<Option<u8>, E>, E>(reader: F) -> (r: Result<
        (i32, usize),
        DecodeVarIntError<E>,
    >) {
        let res = decode_bits(reader);
        let r = match res {
            Ok((bits, n)) => Ok((#[verifier::truncate] (bits as i32), n)),
            Err(e) => Err(e),
        };
        proof {
            let t = choose|t: Seq<Result<Option<u8>, E>>|
                {
                    &&& is_read_sequence(t)
                    &&& may_answer(reader, t)
                    &&& res == decode_answers(t)
                };
            assert(r == decoded_as(decode_answers(t), |b: u32| Self::from_var_int_bits(b)));
        }
        r
    }
}

impl EncodeVarInt for u8 {
    open spec fn var_int_bits(&self) -> u32 {
        *self as u32
    }

    fn encode_var_int<F: FnOnce(&[u8]) -> R, R>(&self, write: F) -> (r: R) {
        let bytes = encode_bits(#[verifier::truncate] (*self as u32));
        write(bytes.as_slice())
    }
}

impl EncodeVarInt for u16 {
    open spec fn var_int_bits(&self) -> u32 {
        *self as u32
    }

    fn encode_var_int<F: FnOnce(&[u8]) -> R, R>(&self, write: F) -> (r: R) {
        let bytes = encode_bits(#[verifier::truncate] (*self as u32));
        write(bytes.as_slice())
    }
}

impl EncodeVarInt for u64 {
    open spec fn var_int_bits(&self) -> u32 {
        *self as u32
    }

    fn encode_var_int<F: FnOnce(&[u8]) -> R, R>(&self, write: F) -> (r: R) {
        let bytes = encode_bits(#[verifier::truncate] (*self as u32));
        write(bytes.as_slice())
    }
}

impl EncodeVarInt for i8 {
    open spec fn var_int_bits(&self) -> u32 {
        *self as u32
    }

    fn encode_var_int<F: FnOnce(&[u8]) -> R, R>(&self, write: F) -> (r: R) {
        let bytes = encode_bits(#[verifier::truncate] (*self as u32));
        write(bytes.as_slice())
    }
}

impl EncodeVarInt for i16 {
    open spec fn var_int_bits(&self) -> u32 {
        *self as u32
    }

    fn encode_var_int<F: FnOnce(&[u8]) -> R, R>(&self, write: F) -> (r: R) {
        let bytes = encode_bits(#[verifier::truncate] (*self as u32));
        write(bytes.as_slice())
    }
}

impl EncodeVarInt for i64 {
    open spec fn var_int_bits(&self) -> u32 {
        *self as u32
    }

    fn encode_var_int<F: FnOnce(&[u8]) -> R, R>(&self, write: F) -> (r: R) {
        let bytes = encode_bits(#[verifier::truncate] (*self as u32));
        write(bytes.as_slice())
    }
}

impl DecodeVarInt for i64 {
    open spec fn from_var_int_bits(bits: u32) -> i64 {
        (bits as i32) as i64
    }

    fn decode_var_int<F: FnMut(usize) -> Result<Option<u8>, E>, E>(reader: F) -> (r: Result<
        (i64, usize),
        DecodeVarIntError<E>,
    >) {
        let res = decode_bits(reader);
        let r = match res {
            Ok((bits, n)) => Ok(((#[verifier::truncate] (bits as i32)) as i64, n)),
            Err(e) => Err(e),
        };
        proof {
            let t = choose|t: Seq<Result<Option<u8>, E>>|
                {
                    &&& is_read_sequence(t)
                    &&& may_answer(reader, t)
                    &&& res == decode_answers(t)
                };
            assert(r == decoded_as(decode_answers(t), |b: u32| Self::from_var_int_bits(b)));
        }
        r
    }
}

impl EncodeVarInt for usize {
    open spec fn var_int_bits(&self) -> u32 {
        *self as u32
    }

    fn encode_var_int<F: FnOnce(&[u8]) -> R, R>(&self, write: F) -> (r: R) {
        let bytes = encode_bits(#[verifier::truncate] (*self as u32));
        write(bytes.as_slice())
    }
}

impl EncodeVarInt for isize {
    open spec fn var_int_bits(&self) -> u32 {
        *self as u32
    }

    fn encode_var_int<F: FnOnce(&[u8]) -> R, R>(&self, write: F) -> (r: R) {
        let bytes = encode_bits(#[verifier::truncate] (*self as u32));
        write(bytes.as_slice())
    }
}

impl EncodeVarInt for u128 {
    open spec fn var_int_bits(&self) -> u32 {
        *self as u32
    }

    fn encode_var_int<F: FnOnce(&[u8]) -> R, R>(&self, write: F) -> (r: R) {
        let bytes = encode_bits(#[verifier::truncate] (*self as u32));
        write(bytes.as_slice())
    }
}

impl EncodeVarInt for i128 {
    open spec fn var_int_bits(&self) -> u32 {
        *self as u32
    }

    fn encode_var_int<F: FnOnce(&[u8]) -> R, R>(&self, write: F) -> (r: R) {
        let bytes = encode_bits(#[verifier::truncate] (*self as u32));
        write(bytes.as_slice())
    }
}

impl DecodeVarInt for i128 {
    open spec fn from_var_int_bits(bits: u32) -> i128 {
        (bits as i32) as i128
    }

    fn decode_var_int<F: FnMut(usize) -> Result<Option<u8>, E>, E>(reader: F) -> (r: Result<
        (i128, usize),
        DecodeVarIntError<E>,
    >) {
        let res = decode_bits(reader);
        let r = match res {
            Ok((bits, n)) => Ok(((#[verifier::truncate] (bits as i32)) as i128, n)),
            Err(e) => Err(e),
        };
        proof {
            let t = choose|t: Seq<Result<Option<u8>, E>>|
                {
                    &&& is_read_sequence(t)
                    &&& may_answer(reader, t)
                    &&& res == decode_answers(t)
                };
            assert(r == decoded_as(decode_answers(t), |b: u32| Self::from_var_int_bits(b)));
        }
        r
    }
}

} // verus!

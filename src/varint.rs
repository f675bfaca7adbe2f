//! A signed 32-bit integer that travels as a variable-length integer.
use vstd::prelude::*;

use crate::codec::{decode_bits, encode_bits};
use crate::error::DecodeVarIntError;
use crate::traits::{decoded_as, DecodeVarInt, EncodeVarInt};
use crate::wire::{decode_answers, is_read_sequence, may_answer};

verus! {

/// A signed 32-bit integer whose encoding is that of its bit pattern.
#[derive(Clone, Copy, Debug, PartialEq, Eq, Structural, PartialOrd, Ord, Hash, Default)]
pub struct VarInt(pub i32);

impl VarInt {
    /// Wraps `v`.
    pub fn new(v: i32) -> (r: VarInt)
        ensures
            r.0 == v,
    {
        VarInt(v)
    }

    /// The wrapped integer.
    pub fn get(&self) -> (r: i32)
        ensures
            r == self.0,
    {
        self.0
    }
}

impl From<i32> for VarInt {
    fn from(v: i32) -> (r: VarInt) {
        VarInt(v)
    }
}

impl vstd::std_specs::convert::FromSpecImpl<i32> for VarInt {
    open spec fn obeys_from_spec() -> bool {
        true
    }

    open spec fn from_spec(v: i32) -> VarInt {
        VarInt(v)
    }
}

/// Keeps the low 32 bits, read as a signed integer.
impl From<u32> for VarInt {
    fn from(v: u32) -> (r: VarInt) {
        VarInt(#[verifier::truncate] (v as i32))
    }
}

impl vstd::std_specs::convert::FromSpecImpl<u32> for VarInt {
    open spec fn obeys_from_spec() -> bool {
        true
    }

    open spec fn from_spec(v: u32) -> VarInt {
        VarInt(v as i32)
    }
}

/// Keeps the low 32 bits, read as a signed integer.
impl From<i64> for VarInt {
    fn from(v: i64) -> (r: VarInt) {
        VarInt(#[verifier::truncate] (v as i32))
    }
}

impl vstd::std_specs::convert::FromSpecImpl<i64> for VarInt {
    open spec fn obeys_from_spec() -> bool {
        true
    }

    open spec fn from_spec(v: i64) -> VarInt {
        VarInt(v as i32)
    }
}

/// Keeps the low 32 bits, read as a signed integer.
impl From<u64> for VarInt {
    fn from(v: u64) -> (r: VarInt) {
        VarInt(#[verifier::truncate] (v as i32))
    }
}

impl vstd::std_specs::convert::FromSpecImpl<u64> for VarInt {
    open spec fn obeys_from_spec() -> bool {
        true
    }

    open spec fn from_spec(v: u64) -> VarInt {
        VarInt(v as i32)
    }
}

/// Widens to 32 bits.
impl From<u8> for VarInt {
    fn from(v: u8) -> (r: VarInt) {
        VarInt(v as i32)
    }
}

impl vstd::std_specs::convert::FromSpecImpl<u8> for VarInt {
    open spec fn obeys_from_spec() -> bool {
        true
    }

    open spec fn from_spec(v: u8) -> VarInt {
        VarInt(v as i32)
    }
}

/// Widens to 32 bits.
impl From<i8> for VarInt {
    fn from(v: i8) -> (r: VarInt) {
        VarInt(v as i32)
    }
}

impl vstd::std_specs::convert::FromSpecImpl<i8> for VarInt {
    open spec fn obeys_from_spec() -> bool {
        true
    }

    open spec fn from_spec(v: i8) -> VarInt {
        VarInt(v as i32)
    }
}

/// Widens to 32 bits.
impl From<u16> for VarInt {
    fn from(v: u16) -> (r: VarInt) {
        VarInt(v as i32)
    }
}

impl vstd::std_specs::convert::FromSpecImpl<u16> for VarInt {
    open spec fn obeys_from_spec() -> bool {
        true
    }

    open spec fn from_spec(v: u16) -> VarInt {
        VarInt(v as i32)
    }
}

/// Widens to 32 bits.
impl From<i16> for VarInt {
    fn from(v: i16) -> (r: VarInt) {
        VarInt(v as i32)
    }
}

impl vstd::std_specs::convert::FromSpecImpl<i16> for VarInt {
    open spec fn obeys_from_spec() -> bool {
        true
    }

    open spec fn from_spec(v: i16) -> VarInt {
        VarInt(v as i32)
    }
}

/// Keeps the low 32 bits, read as a signed integer.
impl From<usize> for VarInt {
    fn from(v: usize) -> (r: VarInt) {
        VarInt(#[verifier::truncate] (v as i32))
    }
}

impl vstd::std_specs::convert::FromSpecImpl<usize> for VarInt {
    open spec fn obeys_from_spec() -> bool {
        true
    }

    open spec fn from_spec(v: usize) -> VarInt {
        VarInt(v as i32)
    }
}

/// Keeps the low 32 bits, read as a signed integer.
impl From<isize> for VarInt {
    fn from(v: isize) -> (r: VarInt) {
        VarInt(#[verifier::truncate] (v as i32))
    }
}

impl vstd::std_specs::convert::FromSpecImpl<isize> for VarInt {
    open spec fn obeys_from_spec() -> bool {
        true
    }

    open spec fn from_spec(v: isize) -> VarInt {
        VarInt(v as i32)
    }
}

/// Keeps the low 32 bits, read as a signed integer.
impl From<u128> for VarInt {
    fn from(v: u128) -> (r: VarInt) {
        VarInt(#[verifier::truncate] (v as i32))
    }
}

impl vstd::std_specs::convert::FromSpecImpl<u128> for VarInt {
    open spec fn obeys_from_spec() -> bool {
        true
    }

    open spec fn from_spec(v: u128) -> VarInt {
        VarInt(v as i32)
    }
}

/// Keeps the low 32 bits, read as a signed integer.
impl From<i128> for VarInt {
    fn from(v: i128) -> (r: VarInt) {
        VarInt(#[verifier::truncate] (v as i32))
    }
}

impl vstd::std_specs::convert::FromSpecImpl<i128> for VarInt {
    open spec fn obeys_from_spec() -> bool {
        true
    }

    open spec fn from_spec(v: i128) -> VarInt {
        VarInt(v as i32)
    }
}

impl From<VarInt> for i32 {
    fn from(v: VarInt) -> (r: i32) {
        v.0
    }
}

impl vstd::std_specs::convert::FromSpecImpl<VarInt> for i32 {
    open spec fn obeys_from_spec() -> bool {
        true
    }

    open spec fn from_spec(v: VarInt) -> i32 {
        v.0
    }
}

impl EncodeVarInt for VarInt {
    open spec fn var_int_bits(&self) -> u32 {
        self.0 as u32
    }

    fn encode_var_int<F: FnOnce(&[u8]) -> R, R>(&self, write: F) -> (r: R) {
        let bytes = encode_bits(#[verifier::truncate] (self.0 as u32));
        write(bytes.as_slice())
    }
}

impl DecodeVarInt for VarInt {
    open spec fn from_var_int_bits(bits: u32) -> VarInt {
        VarInt(bits as i32)
    }

    fn decode_var_int<F: FnMut(usize) -> Result<Option<u8>, E>, E>(reader: F) -> (r: Result<
        (VarInt, usize),
        DecodeVarIntError<E>,
    >) {
        let res = decode_bits(reader);
        let r = match res {
            Ok((bits, n)) => Ok((VarInt(#[verifier::truncate] (bits as i32)), n)),
            Err(e) => Err(e),
        };
        proof {
            let t = choose|t: Seq<Result<Option<u8>, E>>|
                {
                    &&& is_read_sequence(t)
                    &&& may_answer(reader, t)
                    &&& res == decode_answers(t)
                };
            assert(r == decoded_as(decode_answers(t), |b: u32| Self::from_var_int_bits(b)));
        }
        r
    }
}

} // verus!

//! A signed 32-bit integer that is never `i32::MAX`: code around it may take
//! that value as "no value".
use vstd::prelude::*;

use crate::codec::{decode_bits, encode_bits};
use crate::error::DecodeVarIntError;
use crate::traits::EncodeVarInt;
use crate::wire::{decode_answers, is_read_sequence, may_answer, may_ask_next};

verus! {

/// A signed 32-bit integer other than `i32::MAX`, encoded as its bit pattern.
#[derive(Clone, Copy, Debug, PartialEq, Eq, Structural, PartialOrd, Ord, Hash)]
pub struct NonMaxI32VarInt {
    value: i32,
}

impl View for NonMaxI32VarInt {
    type V = i32;

    closed spec fn view(&self) -> i32 {
        self.value
    }
}

impl NonMaxI32VarInt {
    #[verifier::type_invariant]
    spec fn well_formed(&self) -> bool {
        self.value != i32::MAX
    }

    /// Wraps `value`, unless it is `i32::MAX`.
    pub fn new(value: i32) -> (r: Option<NonMaxI32VarInt>)
        ensures
            r is Some <==> value != i32::MAX,
            r matches Some(n) ==> n@ == value,
    {
        if value == i32::MAX {
            None
        } else {
            Some(NonMaxI32VarInt { value })
        }
    }

    /// The wrapped integer.
    pub fn get(&self) -> (r: i32)
        ensures
            r == self@,
            r != i32::MAX,
    {
        proof {
            use_type_invariant(self);
        }
        self.value
    }

    /// Wraps the low 32 bits of `v`, read as a signed integer, unless they
    /// make `i32::MAX`.
    pub fn from_u32(v: u32) -> (r: Option<NonMaxI32VarInt>)
        ensures
            r is Some <==> (v as i32) != i32::MAX,
            r matches Some(n) ==> n@ == v as i32,
    {
        NonMaxI32VarInt::new(#[verifier::truncate] (v as i32))
    }

    /// Wraps the low 32 bits of `v`, read as a signed integer, unless they
    /// make `i32::MAX`.
    pub fn from_i64(v: i64) -> (r: Option<NonMaxI32VarInt>)
        ensures
            r is Some <==> (v as i32) != i32::MAX,
            r matches Some(n) ==> n@ == v as i32,
    {
        NonMaxI32VarInt::new(#[verifier::truncate] (v as i32))
    }

    /// Wraps the low 32 bits of `v`, read as a signed integer, unless they
    /// make `i32::MAX`.
    pub fn from_u64(v: u64) -> (r: Option<NonMaxI32VarInt>)
        ensures
            r is Some <==> (v as i32) != i32::MAX,
            r matches Some(n) ==> n@ == v as i32,
    {
        NonMaxI32VarInt::new(#[verifier::truncate] (v as i32))
    }

    /// Wraps the low 32 bits of `v`, read as a signed integer, unless they
    /// make `i32::MAX`.
    pub fn from_usize(v: usize) -> (r: Option<NonMaxI32VarInt>)
        ensures
            r is Some <==> (v as i32) != i32::MAX,
            r matches Some(n) ==> n@ == v as i32,
    {
        NonMaxI32VarInt::new(#[verifier::truncate] (v as i32))
    }

    /// Wraps the low 32 bits of `v`, read as a signed integer, unless they
    /// make `i32::MAX`.
    pub fn from_isize(v: isize) -> (r: Option<NonMaxI32VarInt>)
        ensures
            r is Some <==> (v as i32) != i32::MAX,
            r matches Some(n) ==> n@ == v as i32,
    {
        NonMaxI32VarInt::new(#[verifier::truncate] (v as i32))
    }

    /// Wraps the low 32 bits of `v`, read as a signed integer, unless they
    /// make `i32::MAX`.
    pub fn from_u128(v: u128) -> (r: Option<NonMaxI32VarInt>)
        ensures
            r is Some <==> (v as i32) != i32::MAX,
            r matches Some(n) ==> n@ == v as i32,
    {
        NonMaxI32VarInt::new(#[verifier::truncate] (v as i32))
    }

    /// Wraps the low 32 bits of `v`, read as a signed integer, unless they
    /// make `i32::MAX`.
    pub fn from_i128(v: i128) -> (r: Option<NonMaxI32VarInt>)
        ensures
            r is Some <==> (v as i32) != i32::MAX,
            r matches Some(n) ==> n@ == v as i32,
    {
        NonMaxI32VarInt::new(#[verifier::truncate] (v as i32))
    }

    /// Decodes a value from `reader`, as `decode_bits` does, and returns it
    /// with the number of bytes read; the value is `None` where the decoded
    /// integer is `i32::MAX`.
    pub fn decode_var_int<F: FnMut(usize) -> Result<Option<u8>, E>, E>(reader: F) -> (r: Result<
        (Option<NonMaxI32VarInt>, usize),
        DecodeVarIntError<E>,
    >)
        requires
            may_ask_next(reader),
        ensures
            exists|t: Seq<Result<Option<u8>, E>>|
                {
                    &&& is_read_sequence(t)
                    &&& may_answer(reader, t)
                    &&& match decode_answers(t) {
                        Ok((bits, n)) => r matches Ok((m, k)) && k == n && (m is Some <==> bits as i32
                            != i32::MAX) && (m matches Some(x) ==> x@ == bits as i32),
                        Err(e) => r == Err::<(Option<NonMaxI32VarInt>, usize), _>(e),
                    }
                },
    {
        let res = decode_bits(reader);
        let r = match res {
            Ok((bits, n)) => Ok((NonMaxI32VarInt::new(#[verifier::truncate] (bits as i32)), n)),
            Err(e) => Err(e),
        };
        proof {
            let t = choose|t: Seq<Result<Option<u8>, E>>|
                {
                    &&& is_read_sequence(t)
                    &&& may_answer(reader, t)
                    &&& res == decode_answers(t)
                };
            assert(is_read_sequence(t) && may_answer(reader, t));
        }
        r
    }
}

impl Default for NonMaxI32VarInt {
    fn default() -> (r: NonMaxI32VarInt)
        ensures
            r@ == 0,
    {
        NonMaxI32VarInt { value: 0 }
    }
}

/// Widens to 32 bits, which never gives `i32::MAX`.
impl From<u8> for NonMaxI32VarInt {
    fn from(v: u8) -> (r: NonMaxI32VarInt)
        ensures
            r@ == v as i32,
    {
        let r = NonMaxI32VarInt { value: v as i32 };
        assert(r@ == v as i32);
        r
    }
}

impl vstd::std_specs::convert::FromSpecImpl<u8> for NonMaxI32VarInt {
    open spec fn obeys_from_spec() -> bool {
        true
    }

    open spec fn from_spec(v: u8) -> NonMaxI32VarInt {
        choose|n: NonMaxI32VarInt| n@ == v as i32
    }
}

/// Widens to 32 bits, which never gives `i32::MAX`.
impl From<i8> for NonMaxI32VarInt {
    fn from(v: i8) -> (r: NonMaxI32VarInt)
        ensures
            r@ == v as i32,
    {
        let r = NonMaxI32VarInt { value: v as i32 };
        assert(r@ == v as i32);
        r
    }
}

impl vstd::std_specs::convert::FromSpecImpl<i8> for NonMaxI32VarInt {
    open spec fn obeys_from_spec() -> bool {
        true
    }

    open spec fn from_spec(v: i8) -> NonMaxI32VarInt {
        choose|n: NonMaxI32VarInt| n@ == v as i32
    }
}

/// Widens to 32 bits, which never gives `i32::MAX`.
impl From<u16> for NonMaxI32VarInt {
    fn from(v: u16) -> (r: NonMaxI32VarInt)
        ensures
            r@ == v as i32,
    {
        let r = NonMaxI32VarInt { value: v as i32 };
        assert(r@ == v as i32);
        r
    }
}

impl vstd::std_specs::convert::FromSpecImpl<u16> for NonMaxI32VarInt {
    open spec fn obeys_from_spec() -> bool {
        true
    }

    open spec fn from_spec(v: u16) -> NonMaxI32VarInt {
        choose|n: NonMaxI32VarInt| n@ == v as i32
    }
}

/// Widens to 32 bits, which never gives `i32::MAX`.
impl From<i16> for NonMaxI32VarInt {
    fn from(v: i16) -> (r: NonMaxI32VarInt)
        ensures
            r@ == v as i32,
    {
        let r = NonMaxI32VarInt { value: v as i32 };
        assert(r@ == v as i32);
        r
    }
}

impl vstd::std_specs::convert::FromSpecImpl<i16> for NonMaxI32VarInt {
    open spec fn obeys_from_spec() -> bool {
        true
    }

    open spec fn from_spec(v: i16) -> NonMaxI32VarInt {
        choose|n: NonMaxI32VarInt| n@ == v as i32
    }
}

impl From<NonMaxI32VarInt> for i32 {
    fn from(v: NonMaxI32VarInt) -> (r: i32) {
        v.get()
    }
}

impl vstd::std_specs::convert::FromSpecImpl<NonMaxI32VarInt> for i32 {
    open spec fn obeys_from_spec() -> bool {
        true
    }

    open spec fn from_spec(v: NonMaxI32VarInt) -> i32 {
        v@
    }
}

impl EncodeVarInt for NonMaxI32VarInt {
    open spec fn var_int_bits(&self) -> u32 {
        self@ as u32
    }

    fn encode_var_int<F: FnOnce(&[u8]) -> R, R>(&self, write: F) -> (r: R) {
        let bytes = encode_bits(#[verifier::truncate] (self.get() as u32));
        write(bytes.as_slice())
    }
}

} // verus!

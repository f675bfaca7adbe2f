//! The bridge to structured formats: a value travels as one opaque byte string.
use vstd::prelude::*;

use crate::traits::EncodeVarInt;
use crate::wire::encoding;

verus! {

/// The byte string that a structured format writes for `value`: its encoding,
/// whole.
pub fn serialize<T: EncodeVarInt>(value: &T) -> (r: Vec<u8>)
    ensures
        r@ == encoding(value.var_int_bits()),
{
    let copy = |bytes: &[u8]| -> (v: Vec<u8>)
        ensures
            v@ == bytes@,
        { vstd::slice::slice_to_vec(bytes) };
    value.encode_var_int(copy)
}

} // verus!

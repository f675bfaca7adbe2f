//! A 32-bit variable-length integer codec: base-128 groups, least significant
//! first, with a continuation flag in the high bit of every byte but the last.
use vstd::prelude::*;

pub mod adapter;
pub mod codec;
pub mod error;
pub mod laws;
pub mod nonmax;
pub mod traits;
pub mod varint;
pub mod wire;

pub use adapter::serialize;
pub use codec::{decode_bits, decode_slice, encode_bits};
pub use error::DecodeVarIntError;
pub use nonmax::NonMaxI32VarInt;
pub use traits::{DecodeVarInt, EncodeVarInt};
pub use varint::VarInt;
pub use wire::{encoded_len, encoding, group};

verus! {

} // verus!

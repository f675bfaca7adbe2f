//! The ways in which decoding fails.
use vstd::prelude::*;

verus! {

/// Why a decode failed.
#[derive(Debug, PartialEq, Eq)]
pub enum DecodeVarIntError<T> {
    /// The source ran out of bytes before a byte without the continuation flag.
    NotEnoughBytesInTheBuffer,
    /// Five bytes were read and the last still had its continuation flag set.
    TooLarge,
    /// The source itself failed; its error is passed on unchanged.
    Custom(T),
}

} // verus!

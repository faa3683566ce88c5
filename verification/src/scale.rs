//! The SCALE encoding of the one value that the engine encodes: a 32-bit number.
//!
//! Nothing in this file is proved: the contract restates what the source of
//! `parity_scale_codec` shows.

use vstd::prelude::*;

verus! {

/// The four bytes of a 32-bit number, lowest first.
pub open spec fn le_bytes_u32(x: u32) -> Seq<u8> {
    seq![
        (x % 256) as u8,
        ((x / 256) % 256) as u8,
        ((x / 65536) % 256) as u8,
        ((x / 16777216) % 256) as u8,
    ]
}

/// `Encode::encode` of a `u32`: its four bytes, lowest first.
#[verifier::external_body]
pub(crate) fn encode_u32(x: u32) -> (bytes: Vec<u8>)
    ensures
        bytes@ == le_bytes_u32(x),
{
    parity_scale_codec::Encode::encode(&x)
}

} // verus!

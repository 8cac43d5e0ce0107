//! The codec for 64-bit signed integers: the external codec lays one out as
//! its eight little-endian bytes, two's complement.

use vstd::prelude::*;

use crate::codec::{Codec, FileBoxError, HasDefault};
use crate::wire::{lemma_u64_le_round_trip, u64_from_le, u64_le_bytes};

verus! {

/// The two's-complement 64-bit word that stands for the integer.
pub open spec fn i64_as_word(v: i64) -> u64 {
    if v >= 0 {
        v as u64
    } else {
        (v + 0x1_0000_0000_0000_0000) as u64
    }
}

/// The integer that a two's-complement 64-bit word stands for.
pub open spec fn word_as_i64(w: u64) -> i64 {
    if w < 0x8000_0000_0000_0000 {
        w as i64
    } else {
        (w - 0x1_0000_0000_0000_0000) as i64
    }
}

/// The bytes that stand for an integer: its word, little-endian.
pub open spec fn i64_encoding(v: i64) -> Seq<u8> {
    u64_le_bytes(i64_as_word(v))
}

/// The integer, if any, that the bytes stand for: the first eight bytes read
/// little-endian; shorter input stands for none, trailing bytes are ignored.
pub open spec fn i64_decoding(bytes: Seq<u8>) -> Option<i64> {
    if bytes.len() >= 8 {
        Some(word_as_i64(u64_from_le(bytes.take(8))))
    } else {
        None
    }
}

/// Relies on bincode::serialize, which writes an i64 as its eight
/// little-endian two's-complement bytes (fixed-width integers, no size
/// limit), and on writes into a Vec<u8> never failing.
#[verifier::external_body]
fn bincode_encode_i64(v: &i64) -> (r: Vec<u8>)
    ensures
        r@ == i64_encoding(*v),
{
    bincode::serialize(v).unwrap()
}

/// Relies on bincode::deserialize, which reads an i64 from the first eight
/// bytes, little-endian two's complement, ignores trailing bytes, and fails
/// on shorter input.
#[verifier::external_body]
fn bincode_decode_i64(bytes: &[u8]) -> (r: Option<i64>)
    ensures
        r == i64_decoding(bytes@),
{
    bincode::deserialize(bytes).ok()
}

impl Codec for i64 {
    open spec fn fits(v: i64) -> bool {
        true
    }

    open spec fn encoding(v: i64) -> Seq<u8> {
        i64_encoding(v)
    }

    open spec fn decoding(bytes: Seq<u8>) -> Option<i64> {
        i64_decoding(bytes)
    }

    proof fn lemma_round_trip(v: i64) {
        let w = i64_as_word(v);
        lemma_u64_le_round_trip(w);
        assert(u64_le_bytes(w).take(8) =~= u64_le_bytes(w));
        assert(word_as_i64(w) == v);
    }

    fn encode(&self) -> (r: Result<Vec<u8>, FileBoxError>) {
        Ok(bincode_encode_i64(self))
    }

    fn decode(bytes: &[u8]) -> (r: Result<i64, FileBoxError>) {
        match bincode_decode_i64(bytes) {
            Some(v) => Ok(v),
            None => Err(FileBoxError::DecodeError),
        }
    }
}

impl HasDefault for i64 {
    open spec fn spec_default() -> i64 {
        0
    }

    fn default_value() -> (r: i64) {
        0
    }
}

} // verus!

//! The codec for a compound value, a byte string paired with an integer: the
//! external codec lays a pair out as the first element followed by the
//! second, with no framing of its own.

use vstd::prelude::*;

use crate::bytes_codec::{bytes_encoding, bytes_fit};
use crate::codec::{Codec, FileBoxError, HasDefault};
use crate::int_codec::{i64_encoding, word_as_i64};
use crate::wire::{lemma_u64_le_round_trip, u64_from_le, u64_le_bytes};

verus! {

/// Whether the pair can be laid out: its byte string's length must fit in
/// one 64-bit word.
pub open spec fn pair_fit(v: (Seq<u8>, i64)) -> bool {
    bytes_fit(v.0)
}

/// The bytes that stand for a pair: the byte string's encoding, then the
/// integer's.
pub open spec fn pair_encoding(v: (Seq<u8>, i64)) -> Seq<u8>
    recommends
        pair_fit(v),
{
    bytes_encoding(v.0) + i64_encoding(v.1)
}

/// The pair, if any, that the bytes stand for: the byte string as in its own
/// codec, then the integer from the eight bytes that follow it; shorter input
/// stands for none, trailing bytes are ignored.
pub open spec fn pair_decoding(bytes: Seq<u8>) -> Option<(Seq<u8>, i64)> {
    if bytes.len() >= 8 {
        let n = u64_from_le(bytes.take(8)) as int;
        if bytes.len() >= 8 + n + 8 {
            Some(
                (
                    bytes.subrange(8, 8 + n),
                    word_as_i64(u64_from_le(bytes.subrange(8 + n, 8 + n + 8))),
                ),
            )
        } else {
            None
        }
    } else {
        None
    }
}

/// Relies on bincode::serialize, which writes a pair as its first element
/// followed by its second, nothing in between (fixed-width integers, no size
/// limit), and on writes into a Vec<u8> never failing.
#[verifier::external_body]
fn bincode_encode_pair(v: &(Vec<u8>, i64)) -> (r: Vec<u8>)
    ensures
        r@ == pair_encoding(v@),
{
    bincode::serialize(v).unwrap()
}

/// Relies on bincode::deserialize, which reads a pair's elements one after
/// the other, ignores trailing bytes, and fails when the input runs out
/// before either element is complete.
#[verifier::external_body]
fn bincode_decode_pair(bytes: &[u8]) -> (r: Option<(Vec<u8>, i64)>)
    ensures
        match r {
            Some(v) => pair_decoding(bytes@) == Some(v@),
            None => pair_decoding(bytes@) is None,
        },
{
    bincode::deserialize(bytes).ok()
}

impl Codec for (Vec<u8>, i64) {
    open spec fn fits(v: (Seq<u8>, i64)) -> bool {
        pair_fit(v)
    }

    open spec fn encoding(v: (Seq<u8>, i64)) -> Seq<u8> {
        pair_encoding(v)
    }

    open spec fn decoding(bytes: Seq<u8>) -> Option<(Seq<u8>, i64)> {
        pair_decoding(bytes)
    }

    proof fn lemma_round_trip(v: (Seq<u8>, i64)) {
        let n = v.0.len() as int;
        let w = crate::int_codec::i64_as_word(v.1);
        lemma_u64_le_round_trip(v.0.len() as u64);
        lemma_u64_le_round_trip(w);
        let enc = pair_encoding(v);
        assert(enc.take(8) =~= u64_le_bytes(v.0.len() as u64));
        assert(enc.subrange(8, 8 + n) =~= v.0);
        assert(enc.subrange(8 + n, 8 + n + 8) =~= u64_le_bytes(w));
        assert(word_as_i64(w) == v.1);
    }

    fn encode(&self) -> (r: Result<Vec<u8>, FileBoxError>) {
        // A vector's length is a usize, so every real byte string fits.
        let n: usize = self.0.len();
        assert(n as nat == self@.0.len() && self@.0.len() < 0x1_0000_0000_0000_0000);
        Ok(bincode_encode_pair(self))
    }

    fn decode(bytes: &[u8]) -> (r: Result<(Vec<u8>, i64), FileBoxError>) {
        match bincode_decode_pair(bytes) {
            Some(v) => Ok(v),
            None => Err(FileBoxError::DecodeError),
        }
    }
}

impl HasDefault for (Vec<u8>, i64) {
    open spec fn spec_default() -> (Seq<u8>, i64) {
        (Seq::empty(), 0)
    }

    fn default_value() -> (r: (Vec<u8>, i64)) {
        (Vec::new(), 0)
    }
}

} // verus!

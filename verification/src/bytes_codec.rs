//! The codec for byte strings: the external codec lays a `Vec<u8>` out as
//! its length in eight little-endian bytes followed by the bytes themselves.

use vstd::prelude::*;

use crate::codec::{Codec, FileBoxError, HasDefault};
use crate::wire::{lemma_u64_le_round_trip, u64_from_le, u64_le_bytes};

verus! {

/// How long a byte string may be: its length must be laid out in one 64-bit
/// word.
pub open spec fn bytes_fit(s: Seq<u8>) -> bool {
    s.len() < 0x1_0000_0000_0000_0000
}

/// The bytes that stand for a byte string: its length as a little-endian
/// word, then the string itself.
pub open spec fn bytes_encoding(s: Seq<u8>) -> Seq<u8>
    recommends
        bytes_fit(s),
{
    u64_le_bytes(s.len() as u64) + s
}

/// The byte string, if any, that the bytes stand for: the first eight bytes
/// give the length, the next that many bytes give the string; shorter input
/// stands for none, trailing bytes are ignored.
pub open spec fn bytes_decoding(bytes: Seq<u8>) -> Option<Seq<u8>> {
    if bytes.len() >= 8 {
        let n = u64_from_le(bytes.take(8)) as int;
        if bytes.len() >= 8 + n {
            Some(bytes.subrange(8, 8 + n))
        } else {
            None
        }
    } else {
        None
    }
}

/// Relies on bincode::serialize, which writes a Vec<u8> as its length in
/// eight little-endian bytes followed by one byte per element (fixed-width
/// integers, no size limit), and on writes into a Vec<u8> never failing.
#[verifier::external_body]
fn bincode_encode_bytes(v: &Vec<u8>) -> (r: Vec<u8>)
    ensures
        r@ == bytes_encoding(v@),
{
    bincode::serialize(v).unwrap()
}

/// Relies on bincode::deserialize, which reads a length from the first eight
/// bytes, little-endian, then that many bytes, ignores trailing bytes, and
/// fails when the input is shorter than what the length asks for.
#[verifier::external_body]
fn bincode_decode_bytes(bytes: &[u8]) -> (r: Option<Vec<u8>>)
    ensures
        match r {
            Some(v) => bytes_decoding(bytes@) == Some(v@),
            None => bytes_decoding(bytes@) is None,
        },
{
    bincode::deserialize(bytes).ok()
}

impl Codec for Vec<u8> {
    open spec fn fits(v: Seq<u8>) -> bool {
        bytes_fit(v)
    }

    open spec fn encoding(v: Seq<u8>) -> Seq<u8> {
        bytes_encoding(v)
    }

    open spec fn decoding(bytes: Seq<u8>) -> Option<Seq<u8>> {
        bytes_decoding(bytes)
    }

    proof fn lemma_round_trip(v: Seq<u8>) {
        let w = v.len() as u64;
        lemma_u64_le_round_trip(w);
        let enc = bytes_encoding(v);
        assert(enc.take(8) =~= u64_le_bytes(w));
        assert(enc.subrange(8, 8 + v.len() as int) =~= v);
    }

    fn encode(&self) -> (r: Result<Vec<u8>, FileBoxError>) {
        // A vector's length is a usize, so every real byte string fits.
        let n: usize = self.len();
        assert(n as nat == self@.len() && self@.len() < 0x1_0000_0000_0000_0000);
        Ok(bincode_encode_bytes(self))
    }

    fn decode(bytes: &[u8]) -> (r: Result<Vec<u8>, FileBoxError>) {
        match bincode_decode_bytes(bytes) {
            Some(v) => Ok(v),
            None => Err(FileBoxError::DecodeError),
        }
    }
}

impl HasDefault for Vec<u8> {
    open spec fn spec_default() -> Seq<u8> {
        Seq::empty()
    }

    fn default_value() -> (r: Vec<u8>) {
        Vec::new()
    }
}

} // verus!

//! The codec capability: what a type must offer to live in a file-backed box.

use vstd::prelude::*;

verus! {

/// Why an operation on a file-backed box failed.
#[derive(Clone, Copy, PartialEq, Eq, Structural, Debug)]
pub enum FileBoxError {
    /// The filesystem refused an open, read, write or remove.
    IoError,
    /// The file's bytes are not a valid encoding of the stored type.
    DecodeError,
    /// The current value cannot be encoded.
    EncodeError,
}

/// The encode/decode pair that binds a value type to its on-disk byte format.
///
/// The contract makes the pair exact inverses: every value that `fits` has one
/// encoding, decoding that encoding yields the value back, and bytes that
/// decode to nothing are rejected rather than read as some default. The byte
/// format itself is the external codec's; each implementation states it over
/// the type's view.
pub trait Codec: View + Sized {
    /// Whether the value is small enough to be laid out in the byte format.
    spec fn fits(v: Self::V) -> bool;

    /// The bytes that stand for the value on disk.
    spec fn encoding(v: Self::V) -> Seq<u8>;

    /// The value, if any, that the bytes stand for.
    spec fn decoding(bytes: Seq<u8>) -> Option<Self::V>;

    /// Law: decoding is a left inverse of encoding.
    proof fn lemma_round_trip(v: Self::V)
        requires
            Self::fits(v),
        ensures
            Self::decoding(Self::encoding(v)) == Some(v),
    ;

    /// Turn the value into the bytes that stand for it.
    fn encode(&self) -> (r: Result<Vec<u8>, FileBoxError>)
        ensures
            match r {
                Ok(bytes) => Self::fits(self@) && bytes@ == Self::encoding(self@),
                Err(e) => e == FileBoxError::EncodeError && !Self::fits(self@),
            },
    ;

    /// Read a value back from bytes, rejecting bytes that stand for none.
    fn decode(bytes: &[u8]) -> (r: Result<Self, FileBoxError>)
        ensures
            match r {
                Ok(v) => Self::decoding(bytes@) == Some(v@),
                Err(e) => e == FileBoxError::DecodeError && Self::decoding(bytes@) is None,
            },
    ;
}

/// A starting value for types whose box can be created without one.
pub trait HasDefault: View + Sized {
    /// The view of the starting value.
    spec fn spec_default() -> Self::V;

    /// The starting value itself.
    fn default_value() -> (r: Self)
        ensures
            r@ == Self::spec_default(),
    ;
}

} // verus!

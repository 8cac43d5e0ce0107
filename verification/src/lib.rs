//! A durable, file-backed value container.
//!
//! A [`FileBox`] binds a value's lifetime to a backing file: the value is
//! decoded from the file's bytes when the box is opened, behaves as an
//! ordinary owned value while the box lives, and is encoded back into bytes
//! when the box is closed. The byte format comes from an external codec; the
//! filesystem itself is an external collaborator that hands the library the
//! file's bytes and carries the encoded bytes back to disk.

use vstd::prelude::*;

mod bytes_codec;
mod codec;
mod int_codec;
mod pair_codec;
mod wire;

pub use codec::Codec;
pub use codec::FileBoxError;
pub use codec::HasDefault;

verus! {

/// A box that yields bytes for its file when closed, and is read from the
/// file's bytes when opened.
///
/// The box owns its value for the whole of its life and passes through its
/// lifecycle exactly once: it is created (from an explicit value, from the
/// file's bytes, or from a default), mutated freely, and then consumed either
/// by [`FileBox::close`], which yields the bytes the file must now hold, or
/// by [`FileBox::delete`], which discards the value unwritten. Reading and
/// writing the backing file itself is the caller's part; the box decides what
/// the bytes mean.
#[derive(Debug)]
pub struct FileBox<T> {
    val: T,
}

impl<T> FileBox<T> {
    /// The value the box holds.
    pub closed spec fn value(&self) -> T {
        self.val
    }
}

impl<T: Codec> FileBox<T> {
    /// Creates a new box holding `val`. The caller truncates the backing
    /// file first; nothing is written until the box is closed, so the file
    /// stays empty for now.
    pub fn open_new(val: T) -> (b: FileBox<T>)
        ensures
            b.value() == val,
    {
        FileBox { val }
    }

    /// Opens a box from the bytes the backing file holds, rejecting bytes
    /// that are not a valid encoding of `T` (an empty file among them).
    pub fn open(bytes: &[u8]) -> (r: Result<FileBox<T>, FileBoxError>)
        ensures
            match r {
                Ok(b) => T::decoding(bytes@) == Some(b.value()@),
                Err(e) => e == FileBoxError::DecodeError && T::decoding(bytes@) is None,
            },
    {
        match T::decode(bytes) {
            Ok(val) => Ok(FileBox { val }),
            Err(e) => Err(e),
        }
    }

    /// Consumes the box and yields the bytes that must overwrite the backing
    /// file, so that the latest value is persisted exactly once.
    pub fn close(self) -> (r: Result<Vec<u8>, FileBoxError>)
        ensures
            match r {
                Ok(bytes) => T::fits(self.value()@) && bytes@ == T::encoding(self.value()@),
                Err(e) => e == FileBoxError::EncodeError && !T::fits(self.value()@),
            },
    {
        self.val.encode()
    }

    /// Consumes the box, discarding the value unwritten. The caller must now
    /// remove the backing file, so that a later open of the same path fails.
    pub fn delete(self) {
    }

    /// A view of the value.
    pub fn get(&self) -> (r: &T)
        ensures
            *r == self.value(),
    {
        &self.val
    }

    /// Write access to the value; the file is only caught up at close time.
    pub fn get_mut(&mut self) -> (r: &mut T)
        ensures
            *r == old(self).value(),
            final(self).value() == *final(r),
    {
        &mut self.val
    }

    /// Replaces the value; the file is only caught up at close time.
    pub fn set(&mut self, val: T)
        ensures
            final(self).value() == val,
    {
        self.val = val;
    }
}

impl<T: Codec + HasDefault> FileBox<T> {
    /// Creates a new box holding the type's default value. As with
    /// [`FileBox::open_new`], the caller truncates the backing file first.
    pub fn new() -> (b: FileBox<T>)
        ensures
            b.value()@ == T::spec_default(),
    {
        FileBox::open_new(T::default_value())
    }

    /// Opens a box from the backing file's bytes where the file exists
    /// (`Some`), and creates one with the default value where it does not
    /// (`None`).
    pub fn open_or_new(file: Option<&[u8]>) -> (r: Result<FileBox<T>, FileBoxError>)
        ensures
            match file {
                Some(bytes) => match r {
                    Ok(b) => T::decoding(bytes@) == Some(b.value()@),
                    Err(e) => e == FileBoxError::DecodeError && T::decoding(bytes@) is None,
                },
                None => match r {
                    Ok(b) => b.value()@ == T::spec_default(),
                    Err(_) => false,
                },
            },
    {
        match file {
            Some(bytes) => FileBox::open(bytes),
            None => Ok(FileBox::new()),
        }
    }
}

/// What opening-or-creating yields for a given state of the backing file:
/// the decoding of its bytes where the file exists, the default value where
/// it does not.
pub open spec fn open_or_new_outcome<T: Codec + HasDefault>(file: Option<Seq<u8>>) -> Option<
    T::V,
> {
    match file {
        Some(bytes) => T::decoding(bytes),
        None => Some(T::spec_default()),
    }
}

/// Law: a value persisted by closing a box is recovered exactly when the
/// file's bytes are opened again.
pub proof fn lemma_close_then_open_round_trip<T: Codec>(v: T::V)
    requires
        T::fits(v),
    ensures
        T::decoding(T::encoding(v)) == Some(v),
{
    T::lemma_round_trip(v);
}

/// Law: after the value is mutated in place, closing persists the new value
/// and only the new value; opening the file's bytes can never yield the value
/// the box was created with.
pub proof fn lemma_mutate_then_persist<T: Codec>(v0: T::V, v1: T::V)
    requires
        T::fits(v1),
    ensures
        T::decoding(T::encoding(v1)) == Some(v1),
        v0 != v1 ==> T::decoding(T::encoding(v1)) != Some(v0),
{
    T::lemma_round_trip(v1);
}

/// Law: a box created with the default value and closed at once writes bytes
/// that open to the default value unchanged.
pub proof fn lemma_default_fill<T: Codec + HasDefault>()
    requires
        T::fits(T::spec_default()),
    ensures
        T::decoding(T::encoding(T::spec_default())) == Some(T::spec_default()),
{
    T::lemma_round_trip(T::spec_default());
}

/// Law: opening-or-creating on a missing file yields the default value, and
/// once that value is flushed, a second opening-or-creating on the written
/// bytes yields the same stored value again.
pub proof fn lemma_open_or_new_idempotent<T: Codec + HasDefault>()
    requires
        T::fits(T::spec_default()),
    ensures
        open_or_new_outcome::<T>(None) == Some(T::spec_default()),
        open_or_new_outcome::<T>(Some(T::encoding(T::spec_default()))) == open_or_new_outcome::<
            T,
        >(None),
{
    T::lemma_round_trip(T::spec_default());
}

} // verus!

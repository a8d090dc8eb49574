//! The frame codec: encode appends one message's bytes to an output buffer,
//! decode takes one whole message off the front of an accumulation buffer,
//! returning nothing (and leaving the buffer untouched) while the bytes stop
//! short, and an error once they can never form a message.

use core::marker::PhantomData;

use vstd::pervasive::VecAdditionalExecFns;
use vstd::prelude::*;

use crate::wire::{DecodeFailure, Probe, RawProbe, WireDecode, WireEncode, WireSpec};

verus! {

/// Why an encode or decode call failed, one variant per fatal category: an
/// error of the byte sink, bytes that cannot form a message, and a message
/// too large for a bounded encoder's scratch region.
#[derive(Debug)]
pub enum BincodeCodecError {
    Io(String),
    Deserialization(String),
    CapacityExceeded,
}

/// A stateless codec for messages of type `T`.
pub struct BincodeCodec<T> {
    _item: PhantomData<T>,
}

impl<T> BincodeCodec<T> {
    /// The one value of this stateless type.
    pub closed spec fn spec_default() -> Self {
        BincodeCodec { _item: PhantomData }
    }
}

impl<T> Default for BincodeCodec<T> {
    fn default() -> (r: Self)
        ensures
            r == Self::spec_default(),
    {
        BincodeCodec { _item: PhantomData }
    }
}

impl<T> BincodeCodec<T> {
    /// Decide what a deserialization failure means: running out of bytes is
    /// not an error, merely "no message yet"; every other failure is fatal.
    fn check_bincode_error(failure: DecodeFailure) -> (r: Result<(), BincodeCodecError>)
        ensures
            failure.eof <==> r is Ok,
            !failure.eof ==> r == Err::<(), BincodeCodecError>(
                BincodeCodecError::Deserialization(failure.detail),
            ),
    {
        if failure.eof {
            Ok(())
        } else {
            Err(BincodeCodecError::Deserialization(failure.detail))
        }
    }
}

impl<T: WireEncode> BincodeCodec<T> {
    /// Append the encoding of `item` to `dst`: on success `dst` grows by
    /// exactly the encoded bytes, on failure it is left untouched.
    pub fn encode(&mut self, item: &T, dst: &mut Vec<u8>) -> (r: Result<(), BincodeCodecError>)
        ensures
            r is Ok ==> final(dst)@ == old(dst)@ + item.wire(),
            r is Err ==> final(dst)@ == old(dst)@,
            T::encode_total() ==> r is Ok,
    {
        match item.wire_encode() {
            Ok(mut bytes) => {
                dst.append(&mut bytes);
                Ok(())
            },
            Err(detail) => Err(BincodeCodecError::Deserialization(detail)),
        }
    }

    /// As `encode`, for a caller that is done with the message and hands it
    /// over by value.
    pub fn encode_owned(&mut self, item: T, dst: &mut Vec<u8>) -> (r: Result<
        (),
        BincodeCodecError,
    >)
        ensures
            r is Ok ==> final(dst)@ == old(dst)@ + item.wire(),
            r is Err ==> final(dst)@ == old(dst)@,
            T::encode_total() ==> r is Ok,
    {
        self.encode(&item, dst)
    }
}

impl<T: WireDecode> BincodeCodec<T> {
    /// Try to take one whole message off the front of `src`.
    ///
    /// The outcome is a function of the buffer's bytes alone. A buffer that
    /// starts with one whole encoding yields that message, with exactly its
    /// encoding consumed and the rest of the buffer kept; a buffer that stops
    /// short inside an encoding yields `None` with the buffer byte-for-byte
    /// unchanged, however often it is retried; and a buffer whose bytes can
    /// never form a message yields a fatal error, again leaving the buffer
    /// unchanged.
    pub fn decode(&mut self, src: &mut Vec<u8>) -> (r: Result<Option<T>, BincodeCodecError>)
        ensures
            (match T::probe(old(src)@) {
                Probe::Value { msg, used } => (r matches Ok(Some(got)) && got == msg) && used
                    <= old(src)@.len() && old(src)@.take(used as int) == msg.wire()
                    && final(src)@ == old(src)@.skip(used as int),
                Probe::Needs => r matches Ok(None) && final(src)@ == old(src)@,
                Probe::Bad => (r matches Err(e) && e is Deserialization)
                    && final(src)@ == old(src)@,
            }),
            (forall|m: T| (#[trigger] m.wire()).is_prefix_of(old(src)@)
                ==> (r matches Ok(Some(got)) && got == m && final(src)@ == old(src)@.skip(
                    m.wire().len() as int,
                ))),
            (forall|m: T, k: int|
                0 <= k < m.wire().len() && old(src)@ == #[trigger] m.wire().take(k)
                    ==> (r matches Ok(None) && final(src)@ == old(src)@)),
    {
        match T::wire_probe(src.as_slice()) {
            RawProbe::Value(msg, used) => {
                let rest = src.split_off(used);
                *src = rest;
                Ok(Some(msg))
            },
            RawProbe::Failed(failure) => {
                match BincodeCodec::<T>::check_bincode_error(failure) {
                    Ok(()) => Ok(None),
                    Err(e) => Err(e),
                }
            },
        }
    }
}

/// A codec whose encoder serializes into an owned, fixed-capacity scratch
/// region first and only then copies the bytes actually written onward, so
/// one encoder never holds more than its construction-time capacity of
/// transient bytes. A message whose encoding does not fit is a fatal error,
/// never truncated.
pub struct BoundedBincodeCodec<T> {
    scratch: Vec<u8>,
    _item: PhantomData<T>,
}

impl<T> BoundedBincodeCodec<T> {
    /// The size of the scratch region, fixed at construction.
    pub closed spec fn spec_capacity(self) -> nat {
        self.scratch@.len()
    }

    /// A codec whose scratch region holds exactly `capacity` bytes.
    pub fn new(capacity: usize) -> (r: Self)
        ensures
            r.spec_capacity() == capacity,
    {
        BoundedBincodeCodec { scratch: vec![0u8; capacity], _item: PhantomData }
    }

    /// The size of the scratch region, fixed at construction.
    pub fn capacity(&self) -> (r: usize)
        ensures
            r == self.spec_capacity(),
    {
        self.scratch.len()
    }
}

impl<T: WireEncode> BoundedBincodeCodec<T> {
    /// Append the encoding of `item` to `dst`, going through the scratch
    /// region: on success `dst` grows by exactly the encoded bytes; an
    /// encoding larger than the scratch region is the fatal
    /// `CapacityExceeded`, and any failure leaves `dst` untouched.
    pub fn encode(&mut self, item: &T, dst: &mut Vec<u8>) -> (r: Result<(), BincodeCodecError>)
        ensures
            final(self).spec_capacity() == old(self).spec_capacity(),
            r is Ok ==> final(dst)@ == old(dst)@ + item.wire()
                && item.wire().len() <= old(self).spec_capacity(),
            r is Err ==> final(dst)@ == old(dst)@,
            item.wire().len() > old(self).spec_capacity() ==> r is Err,
            (r matches Err(e) && e is CapacityExceeded)
                ==> item.wire().len() > old(self).spec_capacity(),
            T::encode_total() && item.wire().len() <= old(self).spec_capacity() ==> r is Ok,
            T::encode_total() && item.wire().len() > old(self).spec_capacity()
                ==> r == Err::<(), BincodeCodecError>(BincodeCodecError::CapacityExceeded),
    {
        match item.wire_encode() {
            Ok(bytes) => {
                let n = bytes.len();
                if n > self.scratch.len() {
                    return Err(BincodeCodecError::CapacityExceeded);
                }
                let mut i: usize = 0;
                while i < n
                    invariant
                        i <= n,
                        n == bytes@.len(),
                        n <= self.scratch@.len(),
                        self.scratch@.len() == old(self).scratch@.len(),
                        self.scratch@.take(i as int) == bytes@.take(i as int),
                    decreases n - i,
                {
                    self.scratch.set(i, bytes[i]);
                    assert(self.scratch@.take(i + 1 as int) =~= bytes@.take(i + 1 as int));
                    i = i + 1;
                }
                assert(bytes@.take(n as int) =~= bytes@);
                let mut j: usize = 0;
                while j < n
                    invariant
                        j <= n,
                        n == bytes@.len(),
                        n <= self.scratch@.len(),
                        self.scratch@.take(n as int) == bytes@,
                        dst@ == old(dst)@ + bytes@.take(j as int),
                    decreases n - j,
                {
                    dst.push(self.scratch[j]);
                    assert(dst@ =~= old(dst)@ + bytes@.take(j + 1 as int));
                    j = j + 1;
                }
                assert(dst@ =~= old(dst)@ + item.wire());
                Ok(())
            },
            Err(detail) => Err(BincodeCodecError::Deserialization(detail)),
        }
    }

    /// As `encode`, for a caller that is done with the message and hands it
    /// over by value.
    pub fn encode_owned(&mut self, item: T, dst: &mut Vec<u8>) -> (r: Result<
        (),
        BincodeCodecError,
    >)
        ensures
            final(self).spec_capacity() == old(self).spec_capacity(),
            r is Ok ==> final(dst)@ == old(dst)@ + item.wire()
                && item.wire().len() <= old(self).spec_capacity(),
            r is Err ==> final(dst)@ == old(dst)@,
            item.wire().len() > old(self).spec_capacity() ==> r is Err,
            (r matches Err(e) && e is CapacityExceeded)
                ==> item.wire().len() > old(self).spec_capacity(),
            T::encode_total() && item.wire().len() <= old(self).spec_capacity() ==> r is Ok,
            T::encode_total() && item.wire().len() > old(self).spec_capacity()
                ==> r == Err::<(), BincodeCodecError>(BincodeCodecError::CapacityExceeded),
    {
        self.encode(&item, dst)
    }
}

/// Frames laid back to back: a frame at the front of a buffer is a prefix of
/// it, and consuming exactly that frame leaves exactly the tail. This is the
/// exact-consumption law for a buffer holding one whole encoding followed by
/// anything, such as a second whole encoding.
pub proof fn lemma_frames_concat(head: Seq<u8>, tail: Seq<u8>)
    ensures
        head.is_prefix_of(head + tail),
        (head + tail).skip(head.len() as int) == tail,
{
    assert((head + tail).take(head.len() as int) =~= head);
    assert((head + tail).skip(head.len() as int) =~= tail);
}

} // verus!

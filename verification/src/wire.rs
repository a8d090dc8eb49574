//! The serialization capability that the codec is built on: a type that can
//! turn itself into bytes, and one that can be read back off the front of a
//! byte buffer, each with a mathematical account of what the bytes are.

use vstd::prelude::*;

verus! {

/// The outcome of one deserialization attempt on a byte sequence, as a
/// mathematical value: either one whole message was read, using `used` bytes
/// off the front, or the bytes ended before the message did (`Needs`), or the
/// bytes cannot open a message at all (`Bad`).
pub enum Probe<T> {
    Value { msg: T, used: nat },
    Needs,
    Bad,
}

/// What one deserialization attempt reported at run time: a message together
/// with how many bytes it took, or the failure that ended the attempt.
pub enum RawProbe<T> {
    Value(T, usize),
    Failed(DecodeFailure),
}

/// The failure half of a deserialization attempt: whether the underlying
/// reader ran out of bytes (`eof`), and the failure's message.
pub struct DecodeFailure {
    pub eof: bool,
    pub detail: String,
}

/// A type with one fixed byte encoding per value.
pub trait WireSpec: Sized {
    /// The bytes that this value serializes to.
    spec fn wire(self) -> Seq<u8>;
}

/// The "can be serialized" capability: produce the encoding of one value.
pub trait WireEncode: WireSpec {
    /// Whether serialization succeeds on every value of this type.
    spec fn encode_total() -> bool;

    /// Produce this value's encoding, or the failure's message.
    fn wire_encode(&self) -> (r: Result<Vec<u8>, String>)
        ensures
            (r matches Ok(v) ==> v@ == self.wire()),
            Self::encode_total() ==> r is Ok,
    ;
}

/// The "can be deserialized" capability: read one value off the front of a
/// byte buffer. The contract states that the encoding is self-delimiting:
/// a buffer that starts with one whole encoding yields exactly that value,
/// using exactly that many bytes, whatever follows; and a buffer that stops
/// short inside an encoding reports an out-of-bytes failure, never a
/// malformed one.
pub trait WireDecode: WireSpec {
    /// The outcome of one deserialization attempt on these bytes. One byte
    /// sequence always probes to the same outcome.
    spec fn probe(bytes: Seq<u8>) -> Probe<Self>;

    /// Attempt to read one value off the front of `bytes`.
    fn wire_probe(bytes: &[u8]) -> (r: RawProbe<Self>)
        ensures
            (match r {
                RawProbe::Value(msg, used) => Self::probe(bytes@) == (Probe::Value {
                    msg,
                    used: used as nat,
                }) && used <= bytes@.len() && bytes@.take(used as int) == msg.wire(),
                RawProbe::Failed(f) => (f.eof <==> Self::probe(bytes@) is Needs) && (!f.eof
                    <==> Self::probe(bytes@) is Bad),
            }),
            (forall|m: Self| (#[trigger] m.wire()).is_prefix_of(bytes@)
                ==> (r matches RawProbe::Value(got, used) && got == m && used
                    == m.wire().len())),
            (forall|m: Self, k: int|
                0 <= k < m.wire().len() && bytes@ == #[trigger] m.wire().take(k)
                    ==> (r matches RawProbe::Failed(f) && f.eof)),
    ;
}

} // verus!

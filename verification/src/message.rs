//! The message shape the codec is exercised with: integers, a boolean, a
//! length-prefixed string and a tagged enum, wired to the bincode
//! serializer. The tagged enum is what makes corrupt input detectable: a
//! byte buffer carrying an out-of-range tag can never decode.

use std::ops::Bound;

use vstd::prelude::*;

use crate::wire::{DecodeFailure, Probe, RawProbe, WireDecode, WireEncode, WireSpec};

verus! {

/// A message of one field per primitive shape the serializer handles:
/// fixed-width integers, a boolean, a length-prefixed string, and a
/// three-variant tagged enum.
#[derive(Debug, Clone)]
pub struct TestMessage {
    pub a: u32,
    pub b: bool,
    pub c: u128,
    pub d: String,
    pub e: TestEnum,
}

/// The tagged enum carried inside a message; on the wire it is a
/// fixed-width tag that admits exactly three values.
#[derive(Debug, Clone, Copy, PartialEq, Eq, Structural)]
pub enum TestEnum {
    A,
    B,
    C,
}

impl PartialEq for TestMessage {
    fn eq(&self, other: &Self) -> (r: bool) {
        self.a == other.a && self.b == other.b && self.c == other.c && self.d == other.d
            && self.e == other.e
    }
}

impl vstd::std_specs::cmp::PartialEqSpecImpl for TestMessage {
    open spec fn obeys_eq_spec() -> bool {
        true
    }

    open spec fn eq_spec(&self, other: &Self) -> bool {
        self.a == other.a && self.b == other.b && self.c == other.c && self.d@ == other.d@
            && self.e == other.e
    }
}

/// The bytes that bincode serializes a message to.
pub uninterp spec fn message_wire(m: TestMessage) -> Seq<u8>;

/// The outcome of one bincode deserialization attempt on these bytes.
pub uninterp spec fn message_probe(bytes: Seq<u8>) -> Probe<TestMessage>;

/// Relies on bincode::serialize with its default configuration (fixed-width
/// little-endian integers, u64 length prefixes, u32 enum tags): it writes the
/// one encoding of the value, and for this shape — integers, a bool, a
/// string and a unit-variant enum, written to a growable byte vector with no
/// size limit — none of its error paths can be reached.
#[verifier::external_body]
fn bincode_encode_message(m: &TestMessage) -> (r: Result<Vec<u8>, String>)
    ensures
        r is Ok,
        r matches Ok(v) ==> v@ == message_wire(*m),
{
    let e: Bound<()> = match m.e {
        TestEnum::A => Bound::Unbounded,
        TestEnum::B => Bound::Included(()),
        TestEnum::C => Bound::Excluded(()),
    };
    bincode::serialize(&(m.a, m.b, m.c, &m.d, e)).map_err(|err| err.to_string())
}

/// Relies on bincode::deserialize_from over an in-memory cursor: it reads
/// exactly one value sequentially off the front of the bytes, leaving the
/// cursor right past the encoding it accepted; it fails with an io error of
/// kind UnexpectedEof exactly when the bytes end before the value does (so
/// on every strict prefix of a valid encoding), and with a different error
/// kind when the bytes it did read cannot belong to a value of this shape.
#[verifier::external_body]
fn bincode_probe_message(bytes: &[u8]) -> (r: RawProbe<TestMessage>)
    ensures
        (match r {
            RawProbe::Value(msg, used) => message_probe(bytes@) == (Probe::Value {
                msg,
                used: used as nat,
            }) && used <= bytes@.len() && bytes@.take(used as int) == message_wire(msg),
            RawProbe::Failed(f) => (f.eof <==> message_probe(bytes@) is Needs) && (!f.eof
                <==> message_probe(bytes@) is Bad),
        }),
        (forall|m: TestMessage| (#[trigger] message_wire(m)).is_prefix_of(bytes@)
            ==> (r is Value && (r matches RawProbe::Value(got, used)
                ==> got == m && used == message_wire(m).len()))),
        (forall|m: TestMessage, k: int|
            0 <= k < message_wire(m).len() && bytes@ == #[trigger] message_wire(m).take(k)
                ==> (r is Failed && (r matches RawProbe::Failed(f) ==> f.eof))),
{
    let mut cur = std::io::Cursor::new(bytes);
    match bincode::deserialize_from::<_, (u32, bool, u128, String, Bound<()>)>(&mut cur) {
        Ok((a, b, c, d, e)) => {
            let e = match e { Bound::Unbounded => TestEnum::A, Bound::Included(_) => TestEnum::B, Bound::Excluded(_) => TestEnum::C };
            RawProbe::Value(TestMessage { a, b, c, d, e }, cur.position() as usize)
        }
        Err(err) => {
            let eof = matches!(*err, bincode::ErrorKind::Io(ref e2) if e2.kind() == std::io::ErrorKind::UnexpectedEof);
            RawProbe::Failed(DecodeFailure { eof, detail: err.to_string() })
        }
    }
}

impl WireSpec for TestMessage {
    open spec fn wire(self) -> Seq<u8> {
        message_wire(self)
    }
}

impl WireEncode for TestMessage {
    open spec fn encode_total() -> bool {
        true
    }

    fn wire_encode(&self) -> (r: Result<Vec<u8>, String>) {
        bincode_encode_message(self)
    }
}

impl WireDecode for TestMessage {
    open spec fn probe(bytes: Seq<u8>) -> Probe<TestMessage> {
        message_probe(bytes)
    }

    fn wire_probe(bytes: &[u8]) -> (r: RawProbe<TestMessage>) {
        bincode_probe_message(bytes)
    }
}

} // verus!

//! Framing for a self-delimiting binary codec: a decoder that pulls whole
//! messages off the front of an accumulation buffer, telling "not enough
//! bytes yet" apart from "the bytes are corrupt", and an encoder in an
//! unbounded and a capacity-bounded variant.

pub mod bincode_codec;
pub mod message;
pub mod named_task;
pub mod soft_assert;
pub mod wire;

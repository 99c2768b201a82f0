//! Value-level model of the wire protocol's datagrams: an address pattern
//! plus an ordered list of typed arguments. A float argument is carried as
//! its raw bit pattern; the core never interprets it.

use vstd::prelude::*;

verus! {

/// One typed argument of a protocol message.
#[derive(Clone, Debug, PartialEq, Eq)]
pub enum OscArg {
    /// 32-bit signed integer argument.
    Int(i32),
    /// 32-bit float argument, carried as its raw bit pattern.
    FloatBits(u32),
    /// String argument.
    Str(String),
    /// Opaque binary blob argument.
    Blob(Vec<u8>),
}

/// A flat protocol message: address pattern plus arguments.
#[derive(Clone, Debug, PartialEq, Eq)]
pub struct Message {
    /// Address pattern, e.g. `/grid/key`.
    pub addr: String,
    /// Ordered argument list.
    pub args: Vec<OscArg>,
}

/// A datagram payload: either one flat message or a bundle of messages.
/// The core ignores bundles; the variant exists so a caller can hand every
/// decoded datagram over without loss.
#[derive(Clone, Debug, PartialEq, Eq)]
pub enum Packet {
    /// A single flat message.
    Message(Message),
    /// A bundle; its inner messages, flattened one level.
    Bundle(Vec<Message>),
}

impl Packet {
    /// The message the core processes out of one datagram: a flat message
    /// passes through, a bundle is ignored.
    pub fn into_message(self) -> (r: Option<Message>)
        ensures
            self matches Packet::Message(m) ==> r == Some(m),
            self matches Packet::Bundle(ms) ==> r is None,
    {
        match self {
            Packet::Message(m) => Some(m),
            Packet::Bundle(_) => None,
        }
    }
}

} // verus!

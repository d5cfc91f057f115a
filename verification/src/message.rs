//! Classified message bodies and total payload extraction: every decoded
//! body yields a (public, masked) payload pair, with an explicit empty
//! pair — never an error — for bodies that carry no payload.

use vstd::prelude::*;

use crate::link::clone_bytes;

verus! {

/// A decoded message body, classified by the decode path.
pub enum MessageContent {
    /// A plain sequencing record; carries no payload.
    Sequence,
    /// An unsigned packet with its two payload channels.
    TaggedPacket { public_payload: Vec<u8>, masked_payload: Vec<u8> },
    /// A signed packet: the signer's public key (signature already
    /// verified upstream) and the two payload channels.
    SignedPacket { pk: Vec<u8>, public_payload: Vec<u8>, masked_payload: Vec<u8> },
    /// Any other control content; carries no payload.
    Other,
}

/// The decoded, authenticated result of retrieving one transport payload.
pub struct UnwrappedMessage {
    /// The classified body.
    pub body: MessageContent,
}

/// The two payload channels extracted from a message body.
pub struct PacketPayloads {
    /// The publicly readable payload.
    pub public_payload: Vec<u8>,
    /// The masked (encrypted) payload.
    pub masked_payload: Vec<u8>,
}

impl Default for PacketPayloads {
    /// The "no payload" sentinel: both channels empty.
    fn default() -> (r: Self)
        ensures
            r.public_payload@ == Seq::<u8>::empty(),
            r.masked_payload@ == Seq::<u8>::empty(),
    {
        PacketPayloads { public_payload: Vec::new(), masked_payload: Vec::new() }
    }
}

/// The public payload a body yields: the packet's public channel, or
/// empty for bodies without payload.
pub open spec fn public_payload_of(body: MessageContent) -> Seq<u8> {
    match body {
        MessageContent::TaggedPacket { public_payload, .. } => public_payload@,
        MessageContent::SignedPacket { public_payload, .. } => public_payload@,
        _ => Seq::empty(),
    }
}

/// The masked payload a body yields: the packet's masked channel, or
/// empty for bodies without payload.
pub open spec fn masked_payload_of(body: MessageContent) -> Seq<u8> {
    match body {
        MessageContent::TaggedPacket { masked_payload, .. } => masked_payload@,
        MessageContent::SignedPacket { masked_payload, .. } => masked_payload@,
        _ => Seq::empty(),
    }
}

/// Extract the payload pair from one message. Total: tagged and signed
/// packets yield their two channels, every other body yields the empty
/// pair, and no input fails.
pub fn handle_message_contents(m: &UnwrappedMessage) -> (r: PacketPayloads)
    ensures
        r.public_payload@ == public_payload_of(m.body),
        r.masked_payload@ == masked_payload_of(m.body),
{
    match &m.body {
        MessageContent::TaggedPacket { public_payload: p, masked_payload: mp } => PacketPayloads {
            public_payload: clone_bytes(p),
            masked_payload: clone_bytes(mp),
        },
        MessageContent::SignedPacket { pk: _, public_payload: p, masked_payload: mp } => (
        PacketPayloads { public_payload: clone_bytes(p), masked_payload: clone_bytes(mp) }),
        _ => PacketPayloads::default(),
    }
}

/// The payload pair of one message; see `handle_message_contents`.
pub fn get_payload(msg: &UnwrappedMessage) -> (r: PacketPayloads)
    ensures
        r.public_payload@ == public_payload_of(msg.body),
        r.masked_payload@ == masked_payload_of(msg.body),
{
    handle_message_contents(msg)
}

/// The payload pair of the message at `index` in a decoded batch.
pub fn get_indexed_payload(msgs: &Vec<UnwrappedMessage>, index: usize) -> (r: PacketPayloads)
    requires
        index < msgs@.len(),
    ensures
        r.public_payload@ == public_payload_of(msgs@[index as int].body),
        r.masked_payload@ == masked_payload_of(msgs@[index as int].body),
{
    handle_message_contents(&msgs[index])
}

} // verus!

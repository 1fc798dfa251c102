//! The message codec: control packets as lists of addressed messages.

use vstd::prelude::*;

verus! {

/// The longest packet that is decoded, in bytes: the size of the buffer
/// that a packet is received into.
pub const MAX_PACKET_LEN: usize = 1536;

/// One argument of a message.
#[derive(Debug, PartialEq, Eq)]
pub enum Argument {
    /// A 32-bit integer.
    Int(i32),
    /// A 32-bit real number, as its bit pattern.
    Real(u32),
    /// A string.
    Text(String),
    /// An argument of any other type.
    Other,
}

/// A decoded control message: where it is addressed to, and its arguments in order.
#[derive(Debug, PartialEq, Eq)]
pub struct InboundMessage {
    pub address: String,
    pub args: Vec<Argument>,
}

/// The messages that the bytes of an OSC packet decode to, in the order in
/// which the packet holds them; none where the bytes are no OSC packet.
pub uninterp spec fn osc_messages(bytes: Seq<u8>) -> Seq<InboundMessage>;

/// Calls `nannou_osc::decode` on the packet and `Packet::into_msgs` on what
/// it gives, which unfolds bundles front to back. The outcome depends on the
/// bytes alone, and the contract gives it the name `osc_messages`; a packet
/// that `decode` refuses gives no messages. Packets are kept to
/// `MAX_PACKET_LEN` bytes, which bounds how deep the decoder recurses into
/// nested bundles.
#[verifier::external_body]
fn decode_osc(bytes: &[u8]) -> (messages: Vec<InboundMessage>)
    requires
        bytes@.len() <= MAX_PACKET_LEN,
    ensures
        messages@ == osc_messages(bytes@),
{
    let packet = match nannou_osc::decode(bytes) {
        Ok(packet) => packet,
        Err(_) => return Vec::new(),
    };
    packet.into_msgs().into_iter().map(|message| InboundMessage {
        address: message.addr,
        args: message.args.into_iter().map(|arg| match arg {
            nannou_osc::Type::Int(value) => Argument::Int(value),
            nannou_osc::Type::Float(value) => Argument::Real(value.to_bits()),
            nannou_osc::Type::String(text) => Argument::Text(text),
            _ => Argument::Other,
        }).collect(),
    }).collect()
}

/// What a packet decodes to: its messages in order, or nothing where it is
/// too long or malformed.
pub open spec fn decoded(bytes: Seq<u8>) -> Seq<InboundMessage> {
    if bytes.len() <= MAX_PACKET_LEN {
        osc_messages(bytes)
    } else {
        Seq::empty()
    }
}

/// Decodes one raw packet into the messages it holds, a bundle's messages
/// in the order in which the bundle holds them. A packet that is too long or
/// malformed gives an empty list.
pub fn decode(bytes: &[u8]) -> (messages: Vec<InboundMessage>)
    ensures
        messages@ == decoded(bytes@),
{
    if bytes.len() <= MAX_PACKET_LEN {
        decode_osc(bytes)
    } else {
        Vec::new()
    }
}

} // verus!

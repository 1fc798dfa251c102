//! The inbound dispatcher: from control messages to changes of the match.

use vstd::prelude::*;
use vstd::utf8::encode_utf8_decode_utf8;
use crate::clock::TimeSpan;
use crate::codec::{decode, decoded, Argument, InboundMessage};
use crate::engine::{Intent, MatchState, MatchView, Side};

verus! {

/// The amount that a score message carries: its first argument where that
/// is an integer, else zero.
pub open spec fn amount_of(args: Seq<Argument>) -> i32 {
    if args.len() > 0 {
        match args[0] {
            Argument::Int(value) => value,
            _ => 0,
        }
    } else {
        0
    }
}

/// The command that a message stands for, by its address; `None` for an
/// address that the protocol does not know.
pub open spec fn route_of(message: InboundMessage) -> Option<Intent> {
    let address = message.address@;
    let amount = amount_of(message.args@);
    if address == "/red/add"@ {
        Some(Intent::AddScore(Side::Red, amount))
    } else if address == "/red/sub"@ {
        Some(Intent::SubScore(Side::Red, amount))
    } else if address == "/blue/add"@ {
        Some(Intent::AddScore(Side::Blue, amount))
    } else if address == "/blue/sub"@ {
        Some(Intent::SubScore(Side::Blue, amount))
    } else if address == "/reset"@ {
        Some(Intent::Reset)
    } else if address == "/pause"@ {
        Some(Intent::TogglePause)
    } else {
        None
    }
}

/// The match after one message: its command carried out, or no change
/// where the address is unknown.
pub open spec fn delivered(state: MatchView, message: InboundMessage) -> MatchView {
    match route_of(message) {
        Some(intent) => state.apply(intent),
        None => state,
    }
}

/// The match after a list of messages, delivered front to back.
pub open spec fn dispatched(state: MatchView, messages: Seq<InboundMessage>) -> MatchView
    decreases messages.len(),
{
    if messages.len() == 0 {
        state
    } else {
        delivered(dispatched(state, messages.drop_last()), messages.last())
    }
}

/// The addresses of the messages that the protocol does not know, in the
/// order of the messages.
pub open spec fn unknown_addresses(messages: Seq<InboundMessage>) -> Seq<Seq<char>>
    decreases messages.len(),
{
    if messages.len() == 0 {
        Seq::empty()
    } else {
        let earlier = unknown_addresses(messages.drop_last());
        if route_of(messages.last()) is None {
            earlier.push(messages.last().address@)
        } else {
            earlier
        }
    }
}

/// The messages of a run of packets: those of each packet, in the order in
/// which the packets arrived.
pub open spec fn batch(packets: Seq<Vec<u8>>) -> Seq<InboundMessage>
    decreases packets.len(),
{
    if packets.len() == 0 {
        Seq::empty()
    } else {
        batch(packets.drop_last()) + decoded(packets.last()@)
    }
}

fn same_bytes(a: &[u8], b: &[u8]) -> (same: bool)
    ensures
        same == (a@ == b@),
{
    if a.len() != b.len() {
        return false;
    }
    let mut i: usize = 0;
    while i < a.len()
        invariant
            a@.len() == b@.len(),
            i <= a@.len(),
            forall|k: int| 0 <= k < i ==> a@[k] == b@[k],
        decreases a@.len() - i,
    {
        if a[i] != b[i] {
            return false;
        }
        i += 1;
    }
    assert(a@ =~= b@);
    true
}

fn same_text(a: &str, b: &str) -> (same: bool)
    ensures
        same == (a@ == b@),
{
    proof {
        encode_utf8_decode_utf8(a@);
        encode_utf8_decode_utf8(b@);
    }
    same_bytes(a.as_bytes(), b.as_bytes())
}

/// The amount that a score message carries.
pub fn amount(args: &Vec<Argument>) -> (value: i32)
    ensures
        value == amount_of(args@),
{
    if args.len() > 0 {
        match &args[0] {
            Argument::Int(value) => *value,
            _ => 0,
        }
    } else {
        0
    }
}

/// Finds the command that a message stands for.
pub fn route(message: &InboundMessage) -> (intent: Option<Intent>)
    ensures
        intent == route_of(*message),
{
    let address = message.address.as_str();
    if same_text(address, "/red/add") {
        Some(Intent::AddScore(Side::Red, amount(&message.args)))
    } else if same_text(address, "/red/sub") {
        Some(Intent::SubScore(Side::Red, amount(&message.args)))
    } else if same_text(address, "/blue/add") {
        Some(Intent::AddScore(Side::Blue, amount(&message.args)))
    } else if same_text(address, "/blue/sub") {
        Some(Intent::SubScore(Side::Blue, amount(&message.args)))
    } else if same_text(address, "/reset") {
        Some(Intent::Reset)
    } else if same_text(address, "/pause") {
        Some(Intent::TogglePause)
    } else {
        None
    }
}

/// Carries out the messages front to back, and returns the addresses of
/// those that the protocol does not know. An unknown address changes
/// nothing and does not keep later messages from being carried out.
pub fn dispatch(state: &mut MatchState, messages: &Vec<InboundMessage>) -> (unknown: Vec<String>)
    ensures
        final(state)@ == dispatched(old(state)@, messages@),
        final(state)@.valid(),
        unknown.deep_view() == unknown_addresses(messages@),
{
    let mut unknown: Vec<String> = Vec::new();
    proof {
        use_type_invariant(&*state);
    }
    let mut i: usize = 0;
    while i < messages.len()
        invariant
            i <= messages@.len(),
            state@ == dispatched(old(state)@, messages@.take(i as int)),
            state@.valid(),
            unknown.deep_view() == unknown_addresses(messages@.take(i as int)),
        decreases messages@.len() - i,
    {
        proof {
            assert(messages@.take(i + 1).drop_last() == messages@.take(i as int));
            assert(messages@.take(i + 1).last() == messages@[i as int]);
        }
        match route(&messages[i]) {
            Some(intent) => state.apply(intent),
            None => {
                let ghost before = unknown.deep_view();
                unknown.push(messages[i].address.clone());
                assert(unknown.deep_view() == before.push(messages@[i as int].address@));
            },
        }
        i += 1;
    }
    assert(messages@.take(i as int) == messages@);
    unknown
}

/// Decodes the packets of one tick into one list of messages, in the order
/// in which the packets arrived.
pub fn decode_batch(packets: &Vec<Vec<u8>>) -> (messages: Vec<InboundMessage>)
    ensures
        messages@ == batch(packets@),
{
    let mut messages: Vec<InboundMessage> = Vec::new();
    let mut i: usize = 0;
    while i < packets.len()
        invariant
            i <= packets@.len(),
            messages@ == batch(packets@.take(i as int)),
        decreases packets@.len() - i,
    {
        proof {
            assert(packets@.take(i + 1).drop_last() == packets@.take(i as int));
            assert(packets@.take(i + 1).last() == packets@[i as int]);
        }
        let mut part = decode(packets[i].as_slice());
        messages.append(&mut part);
        i += 1;
    }
    assert(packets@.take(i as int) == packets@);
    messages
}

/// One tick of the match: the messages of the packets that have arrived
/// are carried out in order, then the clock moves by `elapsed`. Returns the
/// addresses that the protocol does not know.
pub fn update(state: &mut MatchState, packets: &Vec<Vec<u8>>, elapsed: TimeSpan) -> (unknown: Vec<String>)
    ensures
        final(state)@ == dispatched(old(state)@, batch(packets@)).advance(elapsed@),
        final(state)@.valid(),
        unknown.deep_view() == unknown_addresses(batch(packets@)),
{
    let messages = decode_batch(packets);
    let unknown = dispatch(state, &messages);
    state.advance(elapsed);
    unknown
}

} // verus!

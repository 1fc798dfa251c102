//! The status broadcaster: the clock as minutes and seconds, ready to be sent.

use vstd::prelude::*;
use crate::clock::{NANOS_PER_SEC, SECS_PER_MINUTE};
use crate::engine::{match_nanos, Snapshot};

verus! {

/// The address that the status message is sent to.
pub const STATUS_ADDRESS: &'static str = "/match/time";

/// The whole minutes in a span of `nanos` nanoseconds.
pub open spec fn minutes_of(nanos: nat) -> nat {
    nanos / (NANOS_PER_SEC as nat) / (SECS_PER_MINUTE as nat)
}

/// The whole seconds in a span of `nanos` nanoseconds beyond its whole minutes.
pub open spec fn seconds_of(nanos: nat) -> nat {
    (nanos / (NANOS_PER_SEC as nat) - minutes_of(nanos) * SECS_PER_MINUTE) as nat
}

/// The status of the match for its listeners: the time left on the clock.
#[derive(Debug, PartialEq, Eq)]
pub struct StatusMessage {
    pub address: String,
    pub minutes: u64,
    pub seconds: u64,
}

/// The status message for a snapshot: the time left, split into whole
/// minutes and the whole seconds beyond them.
pub fn status(snapshot: &Snapshot) -> (message: StatusMessage)
    ensures
        message.address@ == STATUS_ADDRESS@,
        message.minutes == minutes_of(snapshot@.remaining),
        message.seconds == seconds_of(snapshot@.remaining),
        message.seconds < SECS_PER_MINUTE,
        snapshot@.remaining <= match_nanos() ==> message.minutes <= 2,
{
    let secs: u64 = snapshot.time_left.as_secs();
    let minutes: u64 = secs / SECS_PER_MINUTE;
    StatusMessage {
        address: STATUS_ADDRESS.to_owned(),
        minutes,
        seconds: secs - minutes * SECS_PER_MINUTE,
    }
}

} // verus!

//! What holds of the match engine, whatever the commands and the times.

use vstd::prelude::*;
use crate::dispatch::{batch, delivered, dispatched, unknown_addresses};
use crate::codec::InboundMessage;
use crate::engine::{match_nanos, nibble, Intent, MatchView, Nudge, Phase, Side, SCORE_LIMIT};
use crate::keys::{after_key, Key};

verus! {

/// The match after the pause control has been used `times` times.
pub open spec fn toggled(state: MatchView, times: nat) -> MatchView
    decreases times,
{
    if times == 0 {
        state
    } else {
        toggled(state, (times - 1) as nat).toggle_pause()
    }
}

/// The match after a run of ticks, one for each entry of `ticks`, which
/// gives the tick's length in nanoseconds.
pub open spec fn ticked(state: MatchView, ticks: Seq<nat>) -> MatchView
    decreases ticks.len(),
{
    if ticks.len() == 0 {
        state
    } else {
        ticked(state, ticks.drop_last()).advance(ticks.last())
    }
}

/// The nibble of an amount is its remainder modulo 16, so it lies between
/// 0 and 15 whatever the amount's sign.
pub proof fn lemma_nibble(amount: i32)
    ensures
        nibble(amount) == (amount as int) % 16,
        nibble(amount) <= 15,
{
    let masked: i32 = amount & 0xf;
    assert(0 <= masked <= 15 && masked == amount % 16) by (bit_vector)
        requires
            masked == amount & 0xf,
    ;
}

/// The match starts valid, and every operation of the engine keeps it so.
pub proof fn lemma_validity_is_kept(
    state: MatchView,
    intent: Intent,
    elapsed: nat,
    side: Side,
    nudge: Nudge,
    key: Key,
)
    requires
        state.valid(),
    ensures
        MatchView::initial().valid(),
        state.apply(intent).valid(),
        state.advance(elapsed).valid(),
        state.nudge(side, nudge).valid(),
        after_key(state, key).valid(),
{
}

/// Adding to a score leaves it unchanged where the sum would reach the
/// limit, and else gives exactly the sum; either way the score stays within
/// 0 and 9, and nothing else changes.
pub proof fn lemma_add_score(state: MatchView, side: Side, amount: i32)
    requires
        state.valid(),
    ensures
        state.apply(Intent::AddScore(side, amount)).score(side) == if state.score(side) + nibble(
            amount,
        ) >= SCORE_LIMIT {
            state.score(side)
        } else {
            state.score(side) + nibble(amount)
        },
        0 <= state.apply(Intent::AddScore(side, amount)).score(side) <= 9,
        state.apply(Intent::AddScore(side, amount)).score(side.opponent()) == state.score(
            side.opponent(),
        ),
        state.apply(Intent::AddScore(side, amount)).phase == state.phase,
        state.apply(Intent::AddScore(side, amount)).remaining == state.remaining,
{
}

/// Subtracting from a score leaves it unchanged where it is smaller than
/// the nibble of the amount, and else gives exactly the difference; either
/// way the score stays within 0 and 9, and nothing else changes.
pub proof fn lemma_sub_score(state: MatchView, side: Side, amount: i32)
    requires
        state.valid(),
    ensures
        state.apply(Intent::SubScore(side, amount)).score(side) == if state.score(side) < nibble(
            amount,
        ) {
            state.score(side) as int
        } else {
            state.score(side) - nibble(amount)
        },
        0 <= state.apply(Intent::SubScore(side, amount)).score(side) <= 9,
        state.apply(Intent::SubScore(side, amount)).score(side.opponent()) == state.score(
            side.opponent(),
        ),
        state.apply(Intent::SubScore(side, amount)).phase == state.phase,
        state.apply(Intent::SubScore(side, amount)).remaining == state.remaining,
{
}

/// A reset gives `Phase::Reset` and both scores at zero, from any phase and
/// any scores. The clock is left for the next tick to set.
pub proof fn lemma_reset(state: MatchView)
    ensures
        state.apply(Intent::Reset).phase == Phase::Reset,
        state.apply(Intent::Reset).red == 0,
        state.apply(Intent::Reset).blue == 0,
        state.apply(Intent::Reset).remaining == state.remaining,
{
}

/// From `Phase::Reset` the pause control leads to `Running`, then `Pause`,
/// then `Running` again and so on: after an odd number of uses the match is
/// running, after an even number it is paused, and it never ends that way.
/// Scores and clock are left alone.
pub proof fn lemma_toggle_cycle(state: MatchView, times: nat)
    requires
        state.phase == Phase::Reset,
        times >= 1,
    ensures
        toggled(state, times).phase == if times % 2 == 1 {
            Phase::Running
        } else {
            Phase::Pause
        },
        toggled(state, times).phase != Phase::Ended,
        toggled(state, times).red == state.red,
        toggled(state, times).blue == state.blue,
        toggled(state, times).remaining == state.remaining,
    decreases times,
{
    if times > 1 {
        lemma_toggle_cycle(state, (times - 1) as nat);
    } else {
        assert(toggled(state, 0) == state);
    }
}

/// After the end of the match the pause control resets it: the phase is
/// `Reset` and both scores are zero.
pub proof fn lemma_toggle_after_end(state: MatchView)
    requires
        state.phase == Phase::Ended,
    ensures
        state.apply(Intent::TogglePause).phase == Phase::Reset,
        state.apply(Intent::TogglePause).red == 0,
        state.apply(Intent::TogglePause).blue == 0,
{
}

/// While the match runs, a tick takes its length off the clock, which stops
/// at zero; the match ends exactly when the clock has reached zero. The
/// scores are left alone.
pub proof fn lemma_advance_running(state: MatchView, elapsed: nat)
    requires
        state.phase == Phase::Running,
    ensures
        state.advance(elapsed).remaining == if state.remaining >= elapsed {
            state.remaining - elapsed
        } else {
            0
        },
        state.advance(elapsed).remaining <= state.remaining,
        state.advance(elapsed).phase == if state.advance(elapsed).remaining == 0 {
            Phase::Ended
        } else {
            Phase::Running
        },
        state.advance(elapsed).red == state.red,
        state.advance(elapsed).blue == state.blue,
{
}

/// While the match is reset, a tick of any length puts the clock to the
/// full match length and leaves the phase.
pub proof fn lemma_advance_reset(state: MatchView, elapsed: nat)
    requires
        state.phase == Phase::Reset,
    ensures
        state.advance(elapsed).remaining == match_nanos(),
        state.advance(elapsed).phase == Phase::Reset,
        state.advance(elapsed).red == state.red,
        state.advance(elapsed).blue == state.blue,
{
}

/// While the match is paused, a tick of any length leaves the clock where
/// it is. With time on the clock nothing changes at all; a clock that is
/// already at zero ends the match.
pub proof fn lemma_advance_paused(state: MatchView, elapsed: nat)
    requires
        state.phase == Phase::Pause,
    ensures
        state.advance(elapsed).remaining == state.remaining,
        state.remaining > 0 ==> state.advance(elapsed) == state,
        state.remaining == 0 ==> state.advance(elapsed).phase == Phase::Ended,
        state.advance(elapsed).red == state.red,
        state.advance(elapsed).blue == state.blue,
{
}

/// Once the match has ended, ticks of any number and length keep the clock
/// at zero and the phase at `Ended`: they change nothing at all.
pub proof fn lemma_advance_ended(state: MatchView, ticks: Seq<nat>)
    requires
        state.valid(),
        state.phase == Phase::Ended,
    ensures
        ticked(state, ticks) == state,
        ticked(state, ticks).remaining == 0,
        ticked(state, ticks).phase == Phase::Ended,
    decreases ticks.len(),
{
    if ticks.len() > 0 {
        lemma_advance_ended(state, ticks.drop_last());
    }
}

/// Messages are carried out in the order in which they stand: a list in two
/// parts gives what the second part gives after the first.
pub proof fn lemma_dispatch_in_order(
    state: MatchView,
    first: Seq<InboundMessage>,
    second: Seq<InboundMessage>,
)
    ensures
        dispatched(state, first + second) == dispatched(dispatched(state, first), second),
        unknown_addresses(first + second) == unknown_addresses(first) + unknown_addresses(
            second,
        ),
    decreases second.len(),
{
    if second.len() == 0 {
        assert(first + second == first);
        assert(unknown_addresses(first) + unknown_addresses(second) == unknown_addresses(first));
    } else {
        lemma_dispatch_in_order(state, first, second.drop_last());
        assert((first + second).drop_last() == first + second.drop_last());
        assert((first + second).last() == second.last());
        let earlier = unknown_addresses(first) + unknown_addresses(second.drop_last());
        assert(earlier.push(second.last().address@) == unknown_addresses(first)
            + unknown_addresses(second.drop_last()).push(second.last().address@));
    }
}

/// Packets are taken in the order in which they arrived: a run of packets
/// in two parts holds the messages of the first part, then those of the
/// second.
pub proof fn lemma_batch_in_order(first: Seq<Vec<u8>>, second: Seq<Vec<u8>>)
    ensures
        batch(first + second) == batch(first) + batch(second),
    decreases second.len(),
{
    if second.len() == 0 {
        assert(first + second == first);
        assert(batch(first) + batch(second) == batch(first));
    } else {
        lemma_batch_in_order(first, second.drop_last());
        assert((first + second).drop_last() == first + second.drop_last());
        assert((first + second).last() == second.last());
        assert(batch(first + second) == batch(first) + batch(second));
    }
}

/// Whatever the messages, the match stays valid.
pub proof fn lemma_dispatch_keeps_validity(state: MatchView, messages: Seq<InboundMessage>)
    requires
        state.valid(),
    ensures
        dispatched(state, messages).valid(),
    decreases messages.len(),
{
    if messages.len() > 0 {
        lemma_dispatch_keeps_validity(state, messages.drop_last());
        let before = dispatched(state, messages.drop_last());
        assert(delivered(before, messages.last()).valid());
    }
}

} // verus!

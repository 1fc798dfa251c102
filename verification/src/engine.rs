//! The match engine: the phase of the match, the two scores and the clock,
//! and the operations that change them.

use vstd::prelude::*;
use crate::clock::{TimeSpan, NANOS_PER_SEC};

verus! {

/// Length of a match in seconds. The clock shows this while the match is reset.
pub const MATCH_SECS: u64 = 120;

/// Scores stay below this.
pub const SCORE_LIMIT: u8 = 10;

/// Length of a match in nanoseconds.
pub open spec fn match_nanos() -> nat {
    (MATCH_SECS * NANOS_PER_SEC) as nat
}

/// The low four bits of a raw amount: the part of it that counts.
pub open spec fn nibble(amount: i32) -> nat {
    (amount & 0xf) as nat
}

/// Where the match stands.
#[derive(Clone, Copy, Debug, PartialEq, Eq, Structural)]
pub enum Phase {
    /// Not started: the clock is held at the full match length.
    Reset,
    /// The clock counts down.
    Running,
    /// The clock is frozen.
    Pause,
    /// The clock has run out.
    Ended,
}

/// One of the two sides that score.
#[derive(Clone, Copy, Debug, PartialEq, Eq, Structural)]
pub enum Side {
    Red,
    Blue,
}

/// A command to the engine.
#[derive(Clone, Copy, Debug, PartialEq, Eq, Structural)]
pub enum Intent {
    /// Raise a side's score by the nibble of the amount, unless it would reach the limit.
    AddScore(Side, i32),
    /// Lower a side's score by the nibble of the amount, unless it would go below zero.
    SubScore(Side, i32),
    /// Go back to `Phase::Reset` with both scores at zero.
    Reset,
    /// Start, pause or resume the match; after its end, reset it.
    TogglePause,
}

/// A direct change of a score by one or two points.
#[derive(Clone, Copy, Debug, PartialEq, Eq, Structural)]
pub enum Nudge {
    /// Two points up, from a score below 8.
    UpTwo,
    /// Two points down, from a score above 1.
    DownTwo,
    /// One point up, from a score below 8.
    UpOne,
    /// One point down, from a score above 0.
    DownOne,
}

impl Side {
    /// The other side.
    pub open spec fn opponent(self) -> Side {
        match self {
            Side::Red => Side::Blue,
            Side::Blue => Side::Red,
        }
    }
}

impl Phase {
    /// The phase that follows this one when the pause control is used.
    pub open spec fn after_toggle(self) -> Phase {
        match self {
            Phase::Reset => Phase::Running,
            Phase::Running => Phase::Pause,
            Phase::Pause => Phase::Running,
            Phase::Ended => Phase::Reset,
        }
    }

    /// The phase that follows this one when the pause control is used.
    pub fn toggle(self) -> (next: Phase)
        ensures
            next == self.after_toggle(),
    {
        match self {
            Phase::Reset => Phase::Running,
            Phase::Running => Phase::Pause,
            Phase::Pause => Phase::Running,
            Phase::Ended => Phase::Reset,
        }
    }
}

/// The match as a mathematical value: what a `MatchState` or a `Snapshot` stands for.
pub struct MatchView {
    pub phase: Phase,
    pub red: nat,
    pub blue: nat,
    /// Time left on the clock, in nanoseconds.
    pub remaining: nat,
}

impl MatchView {
    /// The match before anything has happened.
    pub open spec fn initial() -> MatchView {
        MatchView { phase: Phase::Reset, red: 0, blue: 0, remaining: match_nanos() }
    }

    /// What holds of every match: both scores are below the limit, the clock
    /// shows no more than a full match, and a match that has ended has no time left.
    pub open spec fn valid(self) -> bool {
        &&& self.red < SCORE_LIMIT
        &&& self.blue < SCORE_LIMIT
        &&& self.remaining <= match_nanos()
        &&& self.phase == Phase::Ended ==> self.remaining == 0
    }

    /// The score of `side`.
    pub open spec fn score(self, side: Side) -> nat {
        match side {
            Side::Red => self.red,
            Side::Blue => self.blue,
        }
    }

    /// The same match with the score of `side` set to `score`.
    pub open spec fn with_score(self, side: Side, score: nat) -> MatchView {
        match side {
            Side::Red => MatchView { red: score, ..self },
            Side::Blue => MatchView { blue: score, ..self },
        }
    }

    /// The score of `side` raised by the nibble of `amount`, or no change
    /// where the sum would reach the limit.
    pub open spec fn add_score(self, side: Side, amount: i32) -> MatchView {
        if self.score(side) + nibble(amount) < SCORE_LIMIT {
            self.with_score(side, self.score(side) + nibble(amount))
        } else {
            self
        }
    }

    /// The score of `side` lowered by the nibble of `amount`, or no change
    /// where the score is the smaller of the two.
    pub open spec fn sub_score(self, side: Side, amount: i32) -> MatchView {
        if self.score(side) >= nibble(amount) {
            self.with_score(side, (self.score(side) - nibble(amount)) as nat)
        } else {
            self
        }
    }

    /// Back to `Phase::Reset` with both scores at zero. The clock is left as
    /// it is: the next tick sets it.
    pub open spec fn reset(self) -> MatchView {
        MatchView { phase: Phase::Reset, red: 0, blue: 0, ..self }
    }

    /// The pause control: the phase moves on as `Phase::after_toggle` says,
    /// and a match that has ended is reset, scores and all.
    pub open spec fn toggle_pause(self) -> MatchView {
        if self.phase == Phase::Ended {
            self.reset()
        } else {
            MatchView { phase: self.phase.after_toggle(), ..self }
        }
    }

    /// The match after a command.
    pub open spec fn apply(self, intent: Intent) -> MatchView {
        match intent {
            Intent::AddScore(side, amount) => self.add_score(side, amount),
            Intent::SubScore(side, amount) => self.sub_score(side, amount),
            Intent::Reset => self.reset(),
            Intent::TogglePause => self.toggle_pause(),
        }
    }

    /// The clock after `elapsed` nanoseconds have passed in the current phase.
    pub open spec fn clock_after(self, elapsed: nat) -> nat {
        match self.phase {
            Phase::Reset => match_nanos(),
            Phase::Running => if elapsed <= self.remaining {
                (self.remaining - elapsed) as nat
            } else {
                0
            },
            Phase::Pause => self.remaining,
            Phase::Ended => 0,
        }
    }

    /// The match after a tick of `elapsed` nanoseconds: the clock moves as
    /// the phase says, and a clock at zero ends the match.
    pub open spec fn advance(self, elapsed: nat) -> MatchView {
        let remaining = self.clock_after(elapsed);
        MatchView {
            phase: if remaining == 0 {
                Phase::Ended
            } else {
                self.phase
            },
            remaining,
            ..self
        }
    }

    /// The match after a direct change of the score of `side`. Each kind of
    /// change has its own bound, and outside of it changes nothing.
    pub open spec fn nudge(self, side: Side, nudge: Nudge) -> MatchView {
        let score: nat = self.score(side);
        match nudge {
            Nudge::UpTwo => if score < 8 {
                self.with_score(side, score + 2)
            } else {
                self
            },
            Nudge::DownTwo => if score > 1 {
                self.with_score(side, (score - 2) as nat)
            } else {
                self
            },
            Nudge::UpOne => if score < 8 {
                self.with_score(side, score + 1)
            } else {
                self
            },
            Nudge::DownOne => if score > 0 {
                self.with_score(side, (score - 1) as nat)
            } else {
                self
            },
        }
    }
}

/// The low four bits of `amount`.
pub fn low_nibble(amount: i32) -> (n: u8)
    ensures
        n == nibble(amount),
        n <= 15,
{
    let masked: i32 = amount & 0xf;
    assert(0 <= masked <= 15) by (bit_vector)
        requires
            masked == amount & 0xf,
    ;
    masked as u8
}

/// A read of the match at one moment, for display and for the status message.
#[derive(Clone, Copy, Debug, PartialEq, Eq, Structural)]
pub struct Snapshot {
    pub phase: Phase,
    pub red_score: u8,
    pub blue_score: u8,
    pub time_left: TimeSpan,
}

impl View for Snapshot {
    type V = MatchView;

    open spec fn view(&self) -> MatchView {
        MatchView {
            phase: self.phase,
            red: self.red_score as nat,
            blue: self.blue_score as nat,
            remaining: self.time_left@,
        }
    }
}

/// The state of the match. Only the operations below change it, so it is
/// valid at all times.
#[derive(Debug, PartialEq, Eq, Structural)]
pub struct MatchState {
    phase: Phase,
    red: u8,
    blue: u8,
    time_left: TimeSpan,
}

impl View for MatchState {
    type V = MatchView;

    closed spec fn view(&self) -> MatchView {
        MatchView {
            phase: self.phase,
            red: self.red as nat,
            blue: self.blue as nat,
            remaining: self.time_left@,
        }
    }
}

impl MatchState {
    /// Holds of every `MatchState` there is.
    #[verifier::type_invariant]
    pub open spec fn well_formed(self) -> bool {
        self@.valid()
    }

    /// A match that has not started: no points, a full clock.
    pub fn new() -> (state: MatchState)
        ensures
            state@ == MatchView::initial(),
            state@.valid(),
    {
        MatchState { phase: Phase::Reset, red: 0, blue: 0, time_left: TimeSpan::from_secs(MATCH_SECS) }
    }

    /// The phase of the match.
    pub fn phase(&self) -> (phase: Phase)
        ensures
            phase == self@.phase,
    {
        self.phase
    }

    /// The score of `side`.
    pub fn score(&self, side: Side) -> (score: u8)
        ensures
            score == self@.score(side),
            score < SCORE_LIMIT,
    {
        proof {
            use_type_invariant(self);
        }
        match side {
            Side::Red => self.red,
            Side::Blue => self.blue,
        }
    }

    /// The time left on the clock.
    pub fn time_left(&self) -> (left: TimeSpan)
        ensures
            left@ == self@.remaining,
            left@ <= match_nanos(),
    {
        proof {
            use_type_invariant(self);
        }
        self.time_left
    }

    /// The match as it stands. The state itself is left untouched.
    pub fn snapshot(&self) -> (snapshot: Snapshot)
        ensures
            snapshot@ == self@,
            snapshot@.valid(),
    {
        proof {
            use_type_invariant(self);
        }
        Snapshot {
            phase: self.phase,
            red_score: self.red,
            blue_score: self.blue,
            time_left: self.time_left,
        }
    }

    fn set_score(&mut self, side: Side, score: u8)
        requires
            score < SCORE_LIMIT,
        ensures
            final(self)@ == old(self)@.with_score(side, score as nat),
    {
        proof {
            use_type_invariant(&*self);
        }
        match side {
            Side::Red => {
                self.red = score;
            },
            Side::Blue => {
                self.blue = score;
            },
        }
    }

    /// Raises the score of `side` by the low four bits of `amount`, or
    /// leaves it where that would take it to the limit.
    pub fn add_score(&mut self, side: Side, amount: i32)
        ensures
            final(self)@ == old(self)@.add_score(side, amount),
            final(self)@.valid(),
    {
        proof {
            use_type_invariant(&*self);
        }
        let step: u8 = low_nibble(amount);
        let score: u8 = self.score(side);
        if score + step < SCORE_LIMIT {
            self.set_score(side, score + step);
        }
        proof {
            use_type_invariant(&*self);
        }
    }

    /// Lowers the score of `side` by the low four bits of `amount`, or
    /// leaves it where that would take it below zero.
    pub fn sub_score(&mut self, side: Side, amount: i32)
        ensures
            final(self)@ == old(self)@.sub_score(side, amount),
            final(self)@.valid(),
    {
        let step: u8 = low_nibble(amount);
        let score: u8 = self.score(side);
        if score >= step {
            self.set_score(side, score - step);
        }
        proof {
            use_type_invariant(&*self);
        }
    }

    /// Puts the match back to `Phase::Reset` and clears both scores.
    pub fn reset(&mut self)
        ensures
            final(self)@ == old(self)@.reset(),
            final(self)@.valid(),
    {
        proof {
            use_type_invariant(&*self);
        }
        self.phase = Phase::Reset;
        self.red = 0;
        self.blue = 0;
    }

    /// Starts, pauses or resumes the match. A match that has ended is reset.
    pub fn toggle_pause(&mut self)
        ensures
            final(self)@ == old(self)@.toggle_pause(),
            final(self)@.valid(),
    {
        proof {
            use_type_invariant(&*self);
        }
        match self.phase {
            Phase::Ended => self.reset(),
            phase => {
                self.phase = phase.toggle();
            },
        }
    }

    /// Carries out one command.
    pub fn apply(&mut self, intent: Intent)
        ensures
            final(self)@ == old(self)@.apply(intent),
            final(self)@.valid(),
    {
        match intent {
            Intent::AddScore(side, amount) => self.add_score(side, amount),
            Intent::SubScore(side, amount) => self.sub_score(side, amount),
            Intent::Reset => self.reset(),
            Intent::TogglePause => self.toggle_pause(),
        }
    }

    /// Moves the clock by one tick of length `elapsed`, and ends the match
    /// when the clock is at zero.
    pub fn advance(&mut self, elapsed: TimeSpan)
        ensures
            final(self)@ == old(self)@.advance(elapsed@),
            final(self)@.valid(),
    {
        proof {
            use_type_invariant(&*self);
        }
        match self.phase {
            Phase::Reset => {
                self.time_left = TimeSpan::from_secs(MATCH_SECS);
            },
            Phase::Running => {
                self.time_left = self.time_left.saturating_sub(elapsed);
            },
            Phase::Pause => {},
            Phase::Ended => {
                self.time_left = TimeSpan::zero();
            },
        }
        if self.time_left.is_zero() {
            self.phase = Phase::Ended;
        }
    }

    /// Changes the score of `side` by one or two points, within the bounds
    /// that each `Nudge` names.
    pub fn nudge(&mut self, side: Side, nudge: Nudge)
        ensures
            final(self)@ == old(self)@.nudge(side, nudge),
            final(self)@.valid(),
    {
        let score: u8 = self.score(side);
        match nudge {
            Nudge::UpTwo => if score < 8 {
                self.set_score(side, score + 2);
            },
            Nudge::DownTwo => if score > 1 {
                self.set_score(side, score - 2);
            },
            Nudge::UpOne => if score < 8 {
                self.set_score(side, score + 1);
            },
            Nudge::DownOne => if score > 0 {
                self.set_score(side, score - 1);
            },
        }
        proof {
            use_type_invariant(&*self);
        }
    }
}

} // verus!

//! The keyboard path: from a key to a change of the match.

use vstd::prelude::*;
use crate::engine::{MatchState, MatchView, Nudge, Side};

verus! {

/// The keys that the controller listens to.
#[derive(Clone, Copy, Debug, PartialEq, Eq, Structural)]
pub enum Key {
    Q,
    A,
    W,
    S,
    T,
    G,
    R,
    F,
    Space,
    Back,
    Escape,
    /// Any other key.
    Other,
}

/// What a key press asks for.
#[derive(Clone, Copy, Debug, PartialEq, Eq, Structural)]
pub enum KeyIntent {
    /// Change a side's score by one or two points.
    Adjust(Side, Nudge),
    /// Start, pause or resume the match; after its end, reset it.
    TogglePause,
    /// Go back to the start with both scores at zero.
    Reset,
    /// Leave the program.
    Quit,
}

/// What each key asks for: Q, A, W and S change the red score, T, G, R and F
/// the blue one; space toggles the pause, backspace resets, escape quits.
pub open spec fn binding_of(key: Key) -> Option<KeyIntent> {
    match key {
        Key::Q => Some(KeyIntent::Adjust(Side::Red, Nudge::UpTwo)),
        Key::A => Some(KeyIntent::Adjust(Side::Red, Nudge::DownTwo)),
        Key::W => Some(KeyIntent::Adjust(Side::Red, Nudge::UpOne)),
        Key::S => Some(KeyIntent::Adjust(Side::Red, Nudge::DownOne)),
        Key::T => Some(KeyIntent::Adjust(Side::Blue, Nudge::UpTwo)),
        Key::G => Some(KeyIntent::Adjust(Side::Blue, Nudge::DownTwo)),
        Key::R => Some(KeyIntent::Adjust(Side::Blue, Nudge::UpOne)),
        Key::F => Some(KeyIntent::Adjust(Side::Blue, Nudge::DownOne)),
        Key::Space => Some(KeyIntent::TogglePause),
        Key::Back => Some(KeyIntent::Reset),
        Key::Escape => Some(KeyIntent::Quit),
        Key::Other => None,
    }
}

/// The match after a key intent. Quitting leaves it as it is.
pub open spec fn after_intent(state: MatchView, intent: KeyIntent) -> MatchView {
    match intent {
        KeyIntent::Adjust(side, nudge) => state.nudge(side, nudge),
        KeyIntent::TogglePause => state.toggle_pause(),
        KeyIntent::Reset => state.reset(),
        KeyIntent::Quit => state,
    }
}

/// The match after a key press. A key without a binding leaves it as it is.
pub open spec fn after_key(state: MatchView, key: Key) -> MatchView {
    match binding_of(key) {
        Some(intent) => after_intent(state, intent),
        None => state,
    }
}

/// Looks up what a key asks for.
pub fn binding(key: Key) -> (intent: Option<KeyIntent>)
    ensures
        intent == binding_of(key),
{
    match key {
        Key::Q => Some(KeyIntent::Adjust(Side::Red, Nudge::UpTwo)),
        Key::A => Some(KeyIntent::Adjust(Side::Red, Nudge::DownTwo)),
        Key::W => Some(KeyIntent::Adjust(Side::Red, Nudge::UpOne)),
        Key::S => Some(KeyIntent::Adjust(Side::Red, Nudge::DownOne)),
        Key::T => Some(KeyIntent::Adjust(Side::Blue, Nudge::UpTwo)),
        Key::G => Some(KeyIntent::Adjust(Side::Blue, Nudge::DownTwo)),
        Key::R => Some(KeyIntent::Adjust(Side::Blue, Nudge::UpOne)),
        Key::F => Some(KeyIntent::Adjust(Side::Blue, Nudge::DownOne)),
        Key::Space => Some(KeyIntent::TogglePause),
        Key::Back => Some(KeyIntent::Reset),
        Key::Escape => Some(KeyIntent::Quit),
        Key::Other => None,
    }
}

/// Carries out a key intent. Returns whether the program is asked to quit.
pub fn press(state: &mut MatchState, intent: KeyIntent) -> (quit: bool)
    ensures
        final(state)@ == after_intent(old(state)@, intent),
        final(state)@.valid(),
        quit == (intent == KeyIntent::Quit),
{
    proof {
        use_type_invariant(&*state);
    }
    match intent {
        KeyIntent::Adjust(side, nudge) => {
            state.nudge(side, nudge);
            false
        },
        KeyIntent::TogglePause => {
            state.toggle_pause();
            false
        },
        KeyIntent::Reset => {
            state.reset();
            false
        },
        KeyIntent::Quit => true,
    }
}

/// Answers a key press. Returns whether the program is asked to quit.
pub fn key_pressed(state: &mut MatchState, key: Key) -> (quit: bool)
    ensures
        final(state)@ == after_key(old(state)@, key),
        final(state)@.valid(),
        quit == (key == Key::Escape),
{
    proof {
        use_type_invariant(&*state);
    }
    match binding(key) {
        Some(intent) => press(state, intent),
        None => false,
    }
}

} // verus!

//! Match controller for a two-sided scoreboard.
//!
//! The crate keeps two scores, a countdown clock and the phase of the match,
//! and changes them in answer to control messages, key presses and the
//! passing of time. The operations are verified against a mathematical
//! model of the match, [`engine::MatchView`]; the wire format of the control
//! messages is read by `nannou_osc`, behind the one trusted function of
//! [`codec`].

pub mod clock;
pub mod codec;
pub mod dispatch;
pub mod engine;
pub mod keys;
pub mod laws;
pub mod status;

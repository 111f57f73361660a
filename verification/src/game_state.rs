//! The three states of the game.
//!
//! The state machine: from `InsertCoin`, a jump-trigger press starts play;
//! while in `Play`, a collision ends the session in `GameOver`; from
//! `GameOver`, a press starts play again. No other transition exists, and
//! an input in the wrong state is ignored, not an error. The transitions
//! themselves live on the simulation context, which owns the single state
//! value.

use vstd::prelude::*;

verus! {

/// The game's state: waiting for a coin (the initial state), a running
/// session, or the game-over screen.
#[derive(Clone, Copy, Debug, PartialEq, Eq, Hash, Structural)]
pub enum GameStates {
    InsertCoin,
    Play,
    GameOver,
}

impl Default for GameStates {
    /// The machine starts waiting for a coin.
    fn default() -> (s: Self)
        ensures
            s is InsertCoin,
    {
        GameStates::InsertCoin
    }
}

} // verus!

//! The errors that the two instruction handlers can return.

use vstd::prelude::*;

verus! {

/// Everything that can go wrong while setting up or playing a game.
#[derive(Clone, Copy, PartialEq, Eq, Structural, Debug)]
pub enum TicTacToeError {
    /// A tile outside the 3x3 board was played.
    TileOutOfBounds,
    /// The played tile already holds a sign.
    TileAlreadySet,
    /// The game has ended in a win or a tie.
    GameAlreadyOver,
    /// The player that tried to move is not the one whose turn it is.
    NotPlayersTurn,
    /// The game was already started once.
    GameAlreadyStarted,
}

} // verus!

//! The two instruction handlers. The host runtime hands each one the game
//! account's state and the signer's address as plain values; everything the
//! handlers decide is stated here and proved.

use vstd::prelude::*;

use crate::errors::TicTacToeError;
use crate::state::cell;
use crate::state::outcome;
use crate::state::Game;
use crate::state::Pubkey;
use crate::state::Tile;

verus! {

/// Starts the game between `player_one`, who signed the setup, plays `X`
/// and moves first, and `player_two`. A game is started exactly once: if
/// its turn counter already ran, nothing changes and the setup is refused.
pub fn setup_game(game: &mut Game, player_one: Pubkey, player_two: Pubkey) -> (r: Result<
    (),
    TicTacToeError,
>)
    requires
        old(game).wf(),
    ensures
        final(game).wf(),
        old(game).turn != 0 ==> r == Err::<(), TicTacToeError>(TicTacToeError::GameAlreadyStarted)
            && *final(game) == *old(game),
        old(game).turn == 0 ==> {
            &&& r is Ok
            &&& final(game).players@[0] == player_one
            &&& final(game).players@[1] == player_two
            &&& final(game).turn == 1
            &&& final(game).board == old(game).board
            &&& final(game).state == old(game).state
        },
{
    game.start([player_one, player_two])
}

/// Makes a move for `player` on `tile`.
///
/// The move is refused, and the game left as it was, when it is not
/// `player`'s turn, when the game already ended, when the tile lies outside
/// the 3x3 board, and when the tile is already taken — each with its own
/// error. Otherwise the player's sign lands on the tile, a completed trio
/// makes the player the winner, a full board without one draws the game,
/// and while the game keeps running the turn passes to the other player.
pub fn play(game: &mut Game, player: Pubkey, tile: &Tile) -> (r: Result<(), TicTacToeError>)
    requires
        old(game).wf(),
        old(game).turn >= 1,
    ensures
        final(game).wf(),
        player != old(game).spec_current_player() ==> r == Err::<(), TicTacToeError>(
            TicTacToeError::NotPlayersTurn,
        ) && *final(game) == *old(game),
        player == old(game).spec_current_player() && !(old(game).state is Active) ==> r == Err::<
            (),
            TicTacToeError,
        >(TicTacToeError::GameAlreadyOver) && *final(game) == *old(game),
        player == old(game).spec_current_player() && old(game).state is Active && !(tile.row < 3
            && tile.column < 3) ==> r == Err::<(), TicTacToeError>(TicTacToeError::TileOutOfBounds)
            && *final(game) == *old(game),
        player == old(game).spec_current_player() && old(game).state is Active && tile.row < 3
            && tile.column < 3 && cell(old(game).board@, tile.row as int, tile.column as int)
            is Some ==> r == Err::<(), TicTacToeError>(TicTacToeError::TileAlreadySet)
            && *final(game) == *old(game),
        player == old(game).spec_current_player() && old(game).state is Active && tile.row < 3
            && tile.column < 3 && cell(old(game).board@, tile.row as int, tile.column as int)
            is None ==> {
            &&& r is Ok
            &&& final(game).players == old(game).players
            &&& final(game).board@ == old(game).board@.update(
                tile.row * 3 + tile.column,
                Some(old(game).spec_current_sign()),
            )
            &&& final(game).state == outcome(final(game).board@, player)
            &&& final(game).turn == (if final(game).state is Active {
                old(game).turn + 1
            } else {
                old(game).turn as int
            })
        },
        r is Ok && final(game).state is Active ==> final(game).spec_current_player() == old(
            game,
        ).players@[1 - old(game).spec_current_index()],
{
    if !(player == game.current_player()) {
        return Err(TicTacToeError::NotPlayersTurn);
    }
    game.play(tile)
}

} // verus!

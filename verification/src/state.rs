//! The persisted game state: players, board, turn counter and outcome.

use vstd::prelude::*;

use crate::errors::TicTacToeError;

verus! {

/// A 32-byte account address, held as two plain 128-bit halves so that
/// equality of addresses is plain equality of integers.
#[derive(Clone, Copy, PartialEq, Eq, Structural, Debug)]
pub struct Pubkey {
    /// The first 16 bytes of the address, as a little-endian integer.
    pub lo: u128,
    /// The last 16 bytes of the address, as a little-endian integer.
    pub hi: u128,
}

/// The sign a player places on the board. The first player plays `X`,
/// the second plays `O`.
#[derive(Clone, Copy, PartialEq, Eq, Structural, Debug)]
pub enum Sign {
    X,
    O,
}

/// Where a game stands: still running, drawn, or won by one address.
#[derive(Clone, Copy, PartialEq, Eq, Structural, Debug)]
pub enum GameState {
    Active,
    Tie,
    Won { winner: Pubkey },
}

/// One cell of the 3x3 board, addressed by row and column.
#[derive(Clone, Copy, PartialEq, Eq, Structural, Debug)]
pub struct Tile {
    pub row: u8,
    pub column: u8,
}

/// The cell of a flattened 3x3 board at the given row and column.
pub open spec fn cell(b: Seq<Option<Sign>>, row: int, column: int) -> Option<Sign> {
    b[row * 3 + column]
}

/// Three cells hold the same sign (and are not empty).
pub open spec fn trio_same(b: Seq<Option<Sign>>, i: int, j: int, k: int) -> bool {
    b[i] is Some && b[i] == b[j] && b[j] == b[k]
}

/// Some row, column or diagonal of the board is three of one sign.
pub open spec fn has_winning_trio(b: Seq<Option<Sign>>) -> bool {
    ||| trio_same(b, 0, 1, 2)
    ||| trio_same(b, 3, 4, 5)
    ||| trio_same(b, 6, 7, 8)
    ||| trio_same(b, 0, 3, 6)
    ||| trio_same(b, 1, 4, 7)
    ||| trio_same(b, 2, 5, 8)
    ||| trio_same(b, 0, 4, 8)
    ||| trio_same(b, 2, 4, 6)
}

/// Every cell of the board holds a sign.
pub open spec fn board_full(b: Seq<Option<Sign>>) -> bool {
    forall|i: int| 0 <= i < 9 ==> b[i] is Some
}

/// 1 if the cell holds a sign, else 0.
pub open spec fn fill(b: Seq<Option<Sign>>, i: int) -> int {
    if b[i] is Some {
        1
    } else {
        0
    }
}

/// How many of the nine cells hold a sign.
pub open spec fn filled(b: Seq<Option<Sign>>) -> int {
    fill(b, 0) + fill(b, 1) + fill(b, 2) + fill(b, 3) + fill(b, 4) + fill(b, 5) + fill(b, 6)
        + fill(b, 7) + fill(b, 8)
}

/// The outcome after a move: a win if the move completed a trio, a tie if it
/// filled the board, otherwise the game keeps running.
pub open spec fn outcome(b: Seq<Option<Sign>>, mover: Pubkey) -> GameState {
    if has_winning_trio(b) {
        GameState::Won { winner: mover }
    } else if board_full(b) {
        GameState::Tie
    } else {
        GameState::Active
    }
}

/// The whole state of one game. A zeroed value (as a freshly created account
/// holds) is a game that was not started yet: `turn` is 0.
pub struct Game {
    /// The two players; the first plays `X` and moves first.
    pub players: [Pubkey; 2],
    /// 0 before the game starts; afterwards the number of the move being
    /// made, starting at 1.
    pub turn: u8,
    /// The 3x3 board, flattened row by row: the cell at `(r, c)` is entry
    /// `r * 3 + c`.
    pub board: Vec<Option<Sign>>,
    /// Whether the game runs, was drawn, or was won.
    pub state: GameState,
}

impl Game {
    /// The state every game holds between instructions: the board has nine
    /// cells; the turn counter counts the filled cells while the game runs;
    /// a running game shows no trio yet; a drawn game shows a full board
    /// without one; and a won game shows a winning trio and names one of
    /// its two players as the winner.
    pub open spec fn wf(self) -> bool {
        &&& self.board@.len() == 9
        &&& self.turn == 0 ==> self.state is Active && filled(self.board@) == 0
        &&& self.turn >= 1 && self.state is Active ==> filled(self.board@) == self.turn - 1
        &&& self.state is Active ==> !has_winning_trio(self.board@)
        &&& self.state is Tie ==> board_full(self.board@) && !has_winning_trio(self.board@)
        &&& self.state matches GameState::Won { winner } ==> has_winning_trio(self.board@) && (
        winner == self.players@[0] || winner == self.players@[1])
    }

    /// Which of the two players moves now: 0 on odd turns, 1 on even ones.
    pub open spec fn spec_current_index(self) -> int
        recommends
            self.turn >= 1,
    {
        (self.turn - 1) % 2
    }

    /// The address whose turn it is.
    pub open spec fn spec_current_player(self) -> Pubkey
        recommends
            self.turn >= 1,
    {
        self.players@[self.spec_current_index()]
    }

    /// The sign the current player places: `X` for the first player.
    pub open spec fn spec_current_sign(self) -> Sign
        recommends
            self.turn >= 1,
    {
        if self.spec_current_index() == 0 {
            Sign::X
        } else {
            Sign::O
        }
    }

    /// A fresh, unstarted game: empty board, zeroed players, turn 0.
    pub fn new() -> (g: Game)
        ensures
            g.wf(),
            g.turn == 0,
            g.state is Active,
            g.board@.len() == 9,
            forall|i: int| 0 <= i < 9 ==> g.board@[i] is None,
            g.players@[0] == (Pubkey { lo: 0, hi: 0 }),
            g.players@[1] == (Pubkey { lo: 0, hi: 0 }),
    {
        let zero = Pubkey { lo: 0, hi: 0 };
        let mut board: Vec<Option<Sign>> = Vec::new();
        let mut i: usize = 0;
        while i < 9
            invariant
                i <= 9,
                board@.len() == i,
                forall|j: int| 0 <= j < i ==> board@[j] is None,
            decreases 9 - i,
        {
            board.push(None);
            i = i + 1;
        }
        Game { players: [zero, zero], turn: 0, board, state: GameState::Active }
    }

    /// The game still takes moves.
    pub fn is_active(&self) -> (r: bool)
        ensures
            r == (self.state is Active),
    {
        match self.state {
            GameState::Active => true,
            _ => false,
        }
    }

    /// Which entry of `players` moves now.
    fn current_player_index(&self) -> (i: usize)
        requires
            self.turn >= 1,
        ensures
            i == self.spec_current_index(),
            i < 2,
    {
        ((self.turn - 1) % 2) as usize
    }

    /// The address whose turn it is.
    pub fn current_player(&self) -> (p: Pubkey)
        requires
            self.turn >= 1,
        ensures
            p == self.spec_current_player(),
    {
        self.players[self.current_player_index()]
    }

    /// Starts the game by recording the two players and setting the turn
    /// counter to 1. A game can be started exactly once: on a game whose
    /// counter already ran, nothing changes and the start is refused.
    pub fn start(&mut self, players: [Pubkey; 2]) -> (r: Result<(), TicTacToeError>)
        requires
            old(self).wf(),
        ensures
            final(self).wf(),
            old(self).turn != 0 ==> r == Err::<(), TicTacToeError>(
                TicTacToeError::GameAlreadyStarted,
            ) && *final(self) == *old(self),
            old(self).turn == 0 ==> {
                &&& r is Ok
                &&& final(self).players == players
                &&& final(self).turn == 1
                &&& final(self).board == old(self).board
                &&& final(self).state == old(self).state
            },
    {
        if self.turn != 0 {
            return Err(TicTacToeError::GameAlreadyStarted);
        }
        self.players = players;
        self.turn = 1;
        Ok(())
    }

    /// Whether the three cells at the given flat indices hold one sign.
    fn is_winning_trio(&self, i: usize, j: usize, k: usize) -> (r: bool)
        requires
            self.board@.len() == 9,
            i < 9,
            j < 9,
            k < 9,
        ensures
            r == trio_same(self.board@, i as int, j as int, k as int),
    {
        match self.board[i] {
            None => false,
            Some(s) => {
                let sj = match self.board[j] {
                    None => false,
                    Some(t) => t == s,
                };
                let sk = match self.board[k] {
                    None => false,
                    Some(t) => t == s,
                };
                sj && sk
            },
        }
    }

    /// Whether some row, column or diagonal holds three of one sign.
    pub fn has_winner(&self) -> (r: bool)
        requires
            self.board@.len() == 9,
        ensures
            r == has_winning_trio(self.board@),
    {
        let rows = self.is_winning_trio(0, 1, 2) || self.is_winning_trio(3, 4, 5)
            || self.is_winning_trio(6, 7, 8);
        let columns = self.is_winning_trio(0, 3, 6) || self.is_winning_trio(1, 4, 7)
            || self.is_winning_trio(2, 5, 8);
        let diagonals = self.is_winning_trio(0, 4, 8) || self.is_winning_trio(2, 4, 6);
        rows || columns || diagonals
    }

    /// Whether every cell holds a sign.
    fn is_full(&self) -> (r: bool)
        requires
            self.board@.len() == 9,
        ensures
            r == board_full(self.board@),
    {
        let mut i: usize = 0;
        while i < 9
            invariant
                self.board@.len() == 9,
                i <= 9,
                forall|j: int| 0 <= j < i ==> self.board@[j] is Some,
            decreases 9 - i,
        {
            if self.board[i].is_none() {
                return false;
            }
            i = i + 1;
        }
        true
    }

    /// Settles the outcome after a move: a winning trio makes the mover the
    /// winner, a full board without one is a tie, else the state is kept.
    fn update_state(&mut self)
        requires
            old(self).board@.len() == 9,
            old(self).turn >= 1,
        ensures
            final(self).players == old(self).players,
            final(self).turn == old(self).turn,
            final(self).board == old(self).board,
            has_winning_trio(old(self).board@) ==> final(self).state == (GameState::Won {
                winner: old(self).spec_current_player(),
            }),
            !has_winning_trio(old(self).board@) && board_full(old(self).board@)
                ==> final(self).state is Tie,
            !has_winning_trio(old(self).board@) && !board_full(old(self).board@)
                ==> final(self).state == old(self).state,
    {
        if self.has_winner() {
            self.state = GameState::Won { winner: self.current_player() };
            return;
        }
        if self.is_full() {
            self.state = GameState::Tie;
        }
    }

    /// Counts the cells that hold a sign.
    fn count_filled(&self) -> (n: usize)
        requires
            self.board@.len() == 9,
        ensures
            n == filled(self.board@),
    {
        let mut n: usize = 0;
        if self.board[0].is_some() {
            n = n + 1;
        }
        if self.board[1].is_some() {
            n = n + 1;
        }
        if self.board[2].is_some() {
            n = n + 1;
        }
        if self.board[3].is_some() {
            n = n + 1;
        }
        if self.board[4].is_some() {
            n = n + 1;
        }
        if self.board[5].is_some() {
            n = n + 1;
        }
        if self.board[6].is_some() {
            n = n + 1;
        }
        if self.board[7].is_some() {
            n = n + 1;
        }
        if self.board[8].is_some() {
            n = n + 1;
        }
        n
    }

    /// Decides whether the game satisfies `wf`. A caller that received the
    /// state from outside can check it here before it trusts it.
    pub fn is_well_formed(&self) -> (b: bool)
        ensures
            b == self.wf(),
    {
        if self.board.len() != 9 {
            return false;
        }
        let n = self.count_filled();
        let trio = self.has_winner();
        let unstarted_ok = if self.turn == 0 {
            self.is_active() && n == 0
        } else {
            true
        };
        let running_ok = if self.turn >= 1 && self.is_active() {
            n == (self.turn - 1) as usize
        } else {
            true
        };
        let outcome_ok = match self.state {
            GameState::Active => !trio,
            GameState::Tie => self.is_full() && !trio,
            GameState::Won { winner } => trio && (winner == self.players[0] || winner
                == self.players[1]),
        };
        unstarted_ok && running_ok && outcome_ok
    }

    /// Makes the current player's move on the given tile.
    ///
    /// On a game that already ended, on a tile outside the board, and on a
    /// tile that is already taken, the matching error comes back and nothing
    /// changes. Otherwise the mover's sign lands on the tile, the outcome is
    /// settled, and while the game keeps running the turn passes to the
    /// other player.
    pub fn play(&mut self, tile: &Tile) -> (r: Result<(), TicTacToeError>)
        requires
            old(self).wf(),
            old(self).turn >= 1,
        ensures
            final(self).wf(),
            !(old(self).state is Active) ==> r == Err::<(), TicTacToeError>(
                TicTacToeError::GameAlreadyOver,
            ) && *final(self) == *old(self),
            old(self).state is Active && !(tile.row < 3 && tile.column < 3) ==> r == Err::<
                (),
                TicTacToeError,
            >(TicTacToeError::TileOutOfBounds) && *final(self) == *old(self),
            old(self).state is Active && tile.row < 3 && tile.column < 3 && cell(
                old(self).board@,
                tile.row as int,
                tile.column as int,
            ) is Some ==> r == Err::<(), TicTacToeError>(TicTacToeError::TileAlreadySet)
                && *final(self) == *old(self),
            old(self).state is Active && tile.row < 3 && tile.column < 3 && cell(
                old(self).board@,
                tile.row as int,
                tile.column as int,
            ) is None ==> {
                &&& r is Ok
                &&& final(self).players == old(self).players
                &&& final(self).board@ == old(self).board@.update(
                    tile.row * 3 + tile.column,
                    Some(old(self).spec_current_sign()),
                )
                &&& final(self).state == outcome(
                    final(self).board@,
                    old(self).spec_current_player(),
                )
                &&& final(self).turn == (if final(self).state is Active {
                    old(self).turn + 1
                } else {
                    old(self).turn as int
                })
            },
    {
        if !self.is_active() {
            return Err(TicTacToeError::GameAlreadyOver);
        }
        if !(tile.row < 3 && tile.column < 3) {
            return Err(TicTacToeError::TileOutOfBounds);
        }
        let idx: usize = (tile.row as usize) * 3 + (tile.column as usize);
        if self.board[idx].is_some() {
            return Err(TicTacToeError::TileAlreadySet);
        }
        let sign = if self.current_player_index() == 0 {
            Sign::X
        } else {
            Sign::O
        };
        self.board[idx] = Some(sign);
        self.update_state();
        if self.is_active() {
            self.turn = self.turn + 1;
        }
        Ok(())
    }
}

} // verus!

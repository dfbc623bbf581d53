//! The turn controller: validates and applies one move, alternates the
//! active player, and, when configured to, answers with the search's
//! optimal reply within the same call.

use vstd::prelude::*;

verus! {

use crate::board::{
    lemma_marked_wf,
    BoardValues,
    PlayerType,
    TicTacToe,
    INITIAL_MASK,
};
use crate::classify::GameState;
use crate::search::{best_move_spec, TicTacToeAI};

/// Why a move was rejected. Every rejection happens before any mutation.
#[derive(Copy, Clone, Debug, PartialEq, Eq, Structural)]
pub enum GameError {
    /// The cell index lies outside `0..=8`.
    InvalidIndex,
    /// The target cell is already taken.
    CellOccupied,
    /// The game already reached a terminal state.
    GameOver,
}

/// One game session: the board, the player to move, and whether the
/// search answers each successful move automatically.
pub struct TicTacToeGame {
    pub current_player: PlayerType,
    pub game: TicTacToe,
    pub is_vs_ai: bool,
}

impl TicTacToeGame {
    /// The board that one successful move by `index` leaves behind before
    /// any automatic reply: the cell marked and the player switched.
    pub open spec fn after_move(self, index: u32) -> TicTacToeGame {
        TicTacToeGame {
            current_player: self.current_player.switch(),
            game: self.game.marked(self.current_player, index),
            is_vs_ai: self.is_vs_ai,
        }
    }

    /// Whether `index` would be rejected, and why; `None` means the move
    /// is accepted.
    pub open spec fn rejection(self, index: u32) -> Option<GameError> {
        if !(self.game.state_spec() is InProgress) {
            Some(GameError::GameOver)
        } else if index >= 9 {
            Some(GameError::InvalidIndex)
        } else if !self.game.empty_at(index) {
            Some(GameError::CellOccupied)
        } else {
            None
        }
    }

    /// Starts a fresh game on an empty board.
    pub fn new(initial_player: PlayerType, is_vs_ai: bool) -> (r: Self)
        ensures
            r.current_player == initial_player,
            r.game.noughts == 0,
            r.game.crosses == 0,
            r.is_vs_ai == is_vs_ai,
            r.game.wf(),
    {
        Self { current_player: initial_player, game: TicTacToe::new(), is_vs_ai }
    }

    /// Resumes a persisted session from its board, player to move and
    /// auto-play flag.
    pub fn continue_from(game: TicTacToe, current_player: PlayerType, is_vs_ai: bool) -> (r: Self)
        requires
            game.wf(),
        ensures
            r.game == game,
            r.current_player == current_player,
            r.is_vs_ai == is_vs_ai,
    {
        Self { current_player, game, is_vs_ai }
    }

    /// Attempts one move at `index`. A rejected move changes nothing and
    /// reports why it was rejected. An accepted move marks the cell for
    /// the current player and switches the player; then, when auto-play
    /// is on and the game is still in progress, the search's optimal
    /// reply is applied the same way within this call. Returns the
    /// classification of the board the call leaves behind.
    pub fn do_move(&mut self, index: u32) -> (r: Result<GameState, GameError>)
        requires
            old(self).game.wf(),
        ensures
            final(self).game.wf(),
            final(self).is_vs_ai == old(self).is_vs_ai,
            ({
                let rej = old(self).rejection(index);
                let stepped = old(self).after_move(index);
                let reply = best_move_spec(stepped.current_player, stepped.game);
                if rej is Some {
                    r == Err::<GameState, GameError>(rej->Some_0) && *final(self) == *old(self)
                } else if !old(self).is_vs_ai || !(stepped.game.state_spec() is InProgress) {
                    *final(self) == stepped && r == Ok::<GameState, GameError>(
                        stepped.game.state_spec(),
                    )
                } else {
                    *final(self) == stepped.after_move(reply) && r == Ok::<GameState, GameError>(
                        stepped.after_move(reply).game.state_spec(),
                    )
                }
            }),
    {
        let st = self.game.state();
        if !(matches!(st, GameState::InProgress)) {
            return Err(GameError::GameOver);
        }
        if index >= 9 {
            return Err(GameError::InvalidIndex);
        }
        if !self.game.is_valid_move(index) {
            return Err(GameError::CellOccupied);
        }
        proof {
            lemma_marked_wf(self.game, self.current_player, index);
        }
        match self.current_player {
            PlayerType::Cross => self.game.set_cross(index),
            PlayerType::Nought => self.game.set_nought(index),
        }
        self.current_player = self.current_player.switch_player();
        let st_after = self.game.state();
        if matches!(st_after, GameState::InProgress) && self.is_vs_ai {
            let best_move = TicTacToeAI::find_best_move(self.current_player, self.game);
            proof {
                lemma_marked_wf(self.game, self.current_player, best_move);
            }
            match self.current_player {
                PlayerType::Cross => self.game.set_cross(best_move),
                PlayerType::Nought => self.game.set_nought(best_move),
            }
            self.current_player = self.current_player.switch_player();
        }
        Ok(self.game.state())
    }

    /// Decodes the board into its nine cell values, in cell order.
    pub fn board(&self) -> (r: Vec<BoardValues>)
        ensures
            r@.len() == 9,
            forall|j: int| 0 <= j < 9 ==> r@[j] == self.game.cell_value(j as u32),
    {
        let mut r: Vec<BoardValues> = Vec::new();
        let mut j: u32 = 0;
        while j < 9
            invariant
                j <= 9,
                r@.len() == j,
                forall|k: int| 0 <= k < j ==> r@[k] == self.game.cell_value(k as u32),
            decreases 9 - j,
        {
            let mask: u32 = INITIAL_MASK >> j;
            let value = if self.game.noughts() & mask != 0 {
                BoardValues::Nought
            } else if self.game.crosses() & mask != 0 {
                BoardValues::Cross
            } else {
                BoardValues::Empty
            };
            r.push(value);
            j = j + 1;
        }
        r
    }

    /// Classifies the current board.
    pub fn state(&self) -> (r: GameState)
        ensures
            r == self.game.state_spec(),
    {
        self.game.state()
    }
}

} // verus!

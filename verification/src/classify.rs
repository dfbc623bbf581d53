//! Classification of a board into win, draw or in-progress, by scanning
//! the eight winning lines in a fixed order.

use vstd::prelude::*;

verus! {

use crate::board::{cell_mask, PlayerType, TicTacToe, FINISHED_GAME_MASK};

/// One of the eight straight lines of three cells that win the game.
#[derive(Copy, Clone, Debug, PartialEq, Eq, Structural)]
pub enum WinningPattern {
    Row0,
    Row1,
    Row2,
    Col0,
    Col1,
    Col2,
    Dia0,
    Dia1,
}

impl WinningPattern {
    /// The 9-bit mask of this line's three cells.
    pub open spec fn mask(self) -> u32 {
        match self {
            WinningPattern::Row0 => 0b111_000_000,
            WinningPattern::Row1 => 0b000_111_000,
            WinningPattern::Row2 => 0b000_000_111,
            WinningPattern::Col0 => 0b100_100_100,
            WinningPattern::Col1 => 0b010_010_010,
            WinningPattern::Col2 => 0b001_001_001,
            WinningPattern::Dia0 => 0b100_010_001,
            WinningPattern::Dia1 => 0b001_010_100,
        }
    }

    /// The two endpoint cells of this line, as (x, y) board coordinates,
    /// for a renderer that wants to strike the line through.
    pub open spec fn spec_points(self) -> ((u32, u32), (u32, u32)) {
        match self {
            WinningPattern::Row0 => ((0, 0), (2, 0)),
            WinningPattern::Row1 => ((0, 1), (2, 1)),
            WinningPattern::Row2 => ((0, 2), (2, 2)),
            WinningPattern::Col0 => ((0, 0), (0, 2)),
            WinningPattern::Col1 => ((1, 0), (1, 2)),
            WinningPattern::Col2 => ((2, 0), (2, 2)),
            WinningPattern::Dia0 => ((0, 0), (2, 2)),
            WinningPattern::Dia1 => ((0, 2), (2, 0)),
        }
    }

    /// Returns the two points (x, y) that connect this winning line on
    /// the board.
    pub fn points(&self) -> (r: ((u32, u32), (u32, u32)))
        ensures
            r == self.spec_points(),
    {
        match *self {
            Self::Row0 => ((0, 0), (2, 0)),
            Self::Row1 => ((0, 1), (2, 1)),
            Self::Row2 => ((0, 2), (2, 2)),
            Self::Col0 => ((0, 0), (0, 2)),
            Self::Col1 => ((1, 0), (1, 2)),
            Self::Col2 => ((2, 0), (2, 2)),
            Self::Dia0 => ((0, 0), (2, 2)),
            Self::Dia1 => ((0, 2), (2, 0)),
        }
    }
}

/// The outcome derived from a board: a win with the completed line, a
/// draw, or a game still in progress.
#[derive(Copy, Clone, Debug, PartialEq, Eq, Structural)]
pub enum GameState {
    NoughtWins(WinningPattern),
    CrossWins(WinningPattern),
    Draw,
    InProgress,
}

/// Whether `mask` covers every cell of pattern `p`.
pub open spec fn covers(mask: u32, p: WinningPattern) -> bool {
    mask & p.mask() == p.mask()
}

/// The mask of the given player.
pub open spec fn mask_of(g: TicTacToe, player: PlayerType) -> u32 {
    match player {
        PlayerType::Nought => g.noughts,
        PlayerType::Cross => g.crosses,
    }
}

impl TicTacToe {
    /// The outcome of the fixed-order scan: for each line, in the order
    /// Row0, Row1, Row2, Col0, Col1, Col2, Dia0, Dia1, Nought's cover is
    /// checked before Cross's, and the first covered line decides; with
    /// no covered line, a full board is a draw and anything else is
    /// still in progress.
    pub open spec fn state_spec(self) -> GameState {
        if covers(self.noughts, WinningPattern::Row0) {
            GameState::NoughtWins(WinningPattern::Row0)
        } else if covers(self.crosses, WinningPattern::Row0) {
            GameState::CrossWins(WinningPattern::Row0)
        } else if covers(self.noughts, WinningPattern::Row1) {
            GameState::NoughtWins(WinningPattern::Row1)
        } else if covers(self.crosses, WinningPattern::Row1) {
            GameState::CrossWins(WinningPattern::Row1)
        } else if covers(self.noughts, WinningPattern::Row2) {
            GameState::NoughtWins(WinningPattern::Row2)
        } else if covers(self.crosses, WinningPattern::Row2) {
            GameState::CrossWins(WinningPattern::Row2)
        } else if covers(self.noughts, WinningPattern::Col0) {
            GameState::NoughtWins(WinningPattern::Col0)
        } else if covers(self.crosses, WinningPattern::Col0) {
            GameState::CrossWins(WinningPattern::Col0)
        } else if covers(self.noughts, WinningPattern::Col1) {
            GameState::NoughtWins(WinningPattern::Col1)
        } else if covers(self.crosses, WinningPattern::Col1) {
            GameState::CrossWins(WinningPattern::Col1)
        } else if covers(self.noughts, WinningPattern::Col2) {
            GameState::NoughtWins(WinningPattern::Col2)
        } else if covers(self.crosses, WinningPattern::Col2) {
            GameState::CrossWins(WinningPattern::Col2)
        } else if covers(self.noughts, WinningPattern::Dia0) {
            GameState::NoughtWins(WinningPattern::Dia0)
        } else if covers(self.crosses, WinningPattern::Dia0) {
            GameState::CrossWins(WinningPattern::Dia0)
        } else if covers(self.noughts, WinningPattern::Dia1) {
            GameState::NoughtWins(WinningPattern::Dia1)
        } else if covers(self.crosses, WinningPattern::Dia1) {
            GameState::CrossWins(WinningPattern::Dia1)
        } else if self.noughts ^ self.crosses == FINISHED_GAME_MASK {
            GameState::Draw
        } else {
            GameState::InProgress
        }
    }

    /// Classifies the board. Works on any pair of masks, so a corrupted
    /// persisted state is replayed deterministically by the same scan.
    pub fn state(&self) -> (r: GameState)
        ensures
            r == self.state_spec(),
    {
        let n: u32 = self.noughts;
        let c: u32 = self.crosses;
        if n & 0b111_000_000 == 0b111_000_000 {
            GameState::NoughtWins(WinningPattern::Row0)
        } else if c & 0b111_000_000 == 0b111_000_000 {
            GameState::CrossWins(WinningPattern::Row0)
        } else if n & 0b000_111_000 == 0b000_111_000 {
            GameState::NoughtWins(WinningPattern::Row1)
        } else if c & 0b000_111_000 == 0b000_111_000 {
            GameState::CrossWins(WinningPattern::Row1)
        } else if n & 0b000_000_111 == 0b000_000_111 {
            GameState::NoughtWins(WinningPattern::Row2)
        } else if c & 0b000_000_111 == 0b000_000_111 {
            GameState::CrossWins(WinningPattern::Row2)
        } else if n & 0b100_100_100 == 0b100_100_100 {
            GameState::NoughtWins(WinningPattern::Col0)
        } else if c & 0b100_100_100 == 0b100_100_100 {
            GameState::CrossWins(WinningPattern::Col0)
        } else if n & 0b010_010_010 == 0b010_010_010 {
            GameState::NoughtWins(WinningPattern::Col1)
        } else if c & 0b010_010_010 == 0b010_010_010 {
            GameState::CrossWins(WinningPattern::Col1)
        } else if n & 0b001_001_001 == 0b001_001_001 {
            GameState::NoughtWins(WinningPattern::Col2)
        } else if c & 0b001_001_001 == 0b001_001_001 {
            GameState::CrossWins(WinningPattern::Col2)
        } else if n & 0b100_010_001 == 0b100_010_001 {
            GameState::NoughtWins(WinningPattern::Dia0)
        } else if c & 0b100_010_001 == 0b100_010_001 {
            GameState::CrossWins(WinningPattern::Dia0)
        } else if n & 0b001_010_100 == 0b001_010_100 {
            GameState::NoughtWins(WinningPattern::Dia1)
        } else if c & 0b001_010_100 == 0b001_010_100 {
            GameState::CrossWins(WinningPattern::Dia1)
        } else if n ^ c == FINISHED_GAME_MASK {
            GameState::Draw
        } else {
            GameState::InProgress
        }
    }
}

/// When exactly one line is covered, by exactly one player, the scan
/// reports that player's win with that line, whatever the rest of the
/// board holds.
pub proof fn lemma_classify_single_winner(g: TicTacToe, winner: PlayerType, q: WinningPattern)
    requires
        covers(mask_of(g, winner), q),
        forall|p: WinningPattern| p != q ==> !covers(mask_of(g, winner), p),
        forall|p: WinningPattern| !covers(mask_of(g, winner.switch()), p),
    ensures
        g.state_spec() == (match winner {
            PlayerType::Nought => GameState::NoughtWins(q),
            PlayerType::Cross => GameState::CrossWins(q),
        }),
{
    match winner {
        PlayerType::Nought => {
            assert forall|p: WinningPattern| p != q implies !covers(g.noughts, p) by {
                assert(!covers(mask_of(g, winner), p));
            }
            assert forall|p: WinningPattern| !covers(g.crosses, p) by {
                assert(!covers(mask_of(g, winner.switch()), p));
            }
            assert(covers(g.noughts, q));
        },
        PlayerType::Cross => {
            assert forall|p: WinningPattern| p != q implies !covers(g.crosses, p) by {
                assert(!covers(mask_of(g, winner), p));
            }
            assert forall|p: WinningPattern| !covers(g.noughts, p) by {
                assert(!covers(mask_of(g, winner.switch()), p));
            }
            assert(covers(g.crosses, q));
        },
    }
}

/// A full board with no covered line is a draw.
pub proof fn lemma_classify_draw(g: TicTacToe)
    requires
        g.noughts ^ g.crosses == FINISHED_GAME_MASK,
        forall|p: WinningPattern| !covers(g.noughts, p),
        forall|p: WinningPattern| !covers(g.crosses, p),
    ensures
        g.state_spec() == GameState::Draw,
{
}

/// A partially filled well-formed board with no covered line is still in
/// progress.
pub proof fn lemma_classify_in_progress(g: TicTacToe)
    requires
        g.wf(),
        g.occupied() != FINISHED_GAME_MASK,
        forall|p: WinningPattern| !covers(g.noughts, p),
        forall|p: WinningPattern| !covers(g.crosses, p),
    ensures
        g.state_spec() == GameState::InProgress,
{
    bv_disjoint_xor_is_or(g.noughts, g.crosses);
}

proof fn bv_disjoint_xor_is_or(n: u32, c: u32)
    by (bit_vector)
    requires
        n & c == 0,
    ensures
        (n ^ c) == (n | c),
        n < 0x200 && c < 0x200 ==> (n | c) < 0x200,
{
}

/// A well-formed board still in progress has at least one empty cell.
pub proof fn lemma_in_progress_has_empty(g: TicTacToe)
    requires
        g.wf(),
        g.state_spec() == GameState::InProgress,
    ensures
        exists|i: u32| i < 9 && g.empty_at(i),
{
    bv_disjoint_xor_is_or(g.noughts, g.crosses);
    bv_not_full_has_zero(g.noughts | g.crosses);
    if g.occupied() & cell_mask(0) == 0 {
        assert(g.empty_at(0));
    } else if g.occupied() & cell_mask(1) == 0 {
        assert(g.empty_at(1));
    } else if g.occupied() & cell_mask(2) == 0 {
        assert(g.empty_at(2));
    } else if g.occupied() & cell_mask(3) == 0 {
        assert(g.empty_at(3));
    } else if g.occupied() & cell_mask(4) == 0 {
        assert(g.empty_at(4));
    } else if g.occupied() & cell_mask(5) == 0 {
        assert(g.empty_at(5));
    } else if g.occupied() & cell_mask(6) == 0 {
        assert(g.empty_at(6));
    } else if g.occupied() & cell_mask(7) == 0 {
        assert(g.empty_at(7));
    } else {
        assert(g.empty_at(8));
    }
}

proof fn bv_not_full_has_zero(m: u32)
    by (bit_vector)
    requires
        m < 0x200,
        m != FINISHED_GAME_MASK,
    ensures
        m & cell_mask(0) == 0 || m & cell_mask(1) == 0 || m & cell_mask(2) == 0 || m & cell_mask(3)
            == 0 || m & cell_mask(4) == 0 || m & cell_mask(5) == 0 || m & cell_mask(6) == 0 || m
            & cell_mask(7) == 0 || m & cell_mask(8) == 0,
{
}

} // verus!

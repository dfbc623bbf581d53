//! The bit-packed board: two disjoint 9-bit masks, one per player.
//! Cell `index` (row-major, `0..=8`) corresponds to bit `8 - index`,
//! so cell 0 is the highest of the nine bits and cell 8 the lowest.

use vstd::prelude::*;

verus! {

/// The mask with only the bit of cell 0 set; the bit of cell `i` is
/// `INITIAL_MASK >> i`.
pub const INITIAL_MASK: u32 = 0b100_000_000;

/// The mask with the bits of all nine cells set.
pub const FINISHED_GAME_MASK: u32 = 0b111_111_111;

/// What a single cell of the decoded board holds.
#[derive(Copy, Clone, Debug, PartialEq, Eq, Structural)]
pub enum BoardValues {
    Empty,
    Nought,
    Cross,
}

/// One of the two players.
#[derive(Copy, Clone, Debug, PartialEq, Eq, Structural)]
pub enum PlayerType {
    Nought,
    Cross,
}

impl PlayerType {
    /// The other player.
    pub open spec fn switch(self) -> PlayerType {
        match self {
            PlayerType::Cross => PlayerType::Nought,
            PlayerType::Nought => PlayerType::Cross,
        }
    }

    /// The cell value that this player leaves behind when marking a cell.
    pub open spec fn mark_value(self) -> BoardValues {
        match self {
            PlayerType::Nought => BoardValues::Nought,
            PlayerType::Cross => BoardValues::Cross,
        }
    }

    /// Alternation between the two players, a pure total function.
    pub fn switch_player(&self) -> (r: Self)
        ensures
            r == self.switch(),
    {
        match self {
            Self::Cross => Self::Nought,
            Self::Nought => Self::Cross,
        }
    }
}

/// The bit mask of cell `index`.
pub open spec fn cell_mask(index: u32) -> u32 {
    INITIAL_MASK >> index
}

/// The board state: one 9-bit occupancy mask per player.
#[derive(Copy, Clone, Debug, PartialEq, Eq, Structural)]
pub struct TicTacToe {
    pub noughts: u32,
    pub crosses: u32,
}

impl TicTacToe {
    /// Union of both players' masks: every occupied cell.
    pub open spec fn occupied(self) -> u32 {
        self.noughts | self.crosses
    }

    /// The board invariant: both masks fit in nine bits and no cell is
    /// claimed by both players. Every mutation path preserves it; it is
    /// never assumed from the encoding alone.
    pub open spec fn wf(self) -> bool {
        &&& self.noughts < 0x200
        &&& self.crosses < 0x200
        &&& self.noughts & self.crosses == 0
    }

    /// Whether neither player has marked cell `index`.
    pub open spec fn empty_at(self, index: u32) -> bool {
        self.occupied() & cell_mask(index) == 0
    }

    /// The decoded value of cell `index`.
    pub open spec fn cell_value(self, index: u32) -> BoardValues {
        if self.noughts & cell_mask(index) != 0 {
            BoardValues::Nought
        } else if self.crosses & cell_mask(index) != 0 {
            BoardValues::Cross
        } else {
            BoardValues::Empty
        }
    }

    /// The board after `player` marks cell `index`.
    pub open spec fn marked(self, player: PlayerType, index: u32) -> TicTacToe {
        match player {
            PlayerType::Nought => TicTacToe {
                noughts: self.noughts | cell_mask(index),
                crosses: self.crosses,
            },
            PlayerType::Cross => TicTacToe {
                noughts: self.noughts,
                crosses: self.crosses | cell_mask(index),
            },
        }
    }

    /// How many of the cells `index..9` are empty.
    pub open spec fn empties_from(self, index: u32) -> nat
        decreases 9 - index,
    {
        if index >= 9 {
            0
        } else {
            (if self.empty_at(index) {
                1nat
            } else {
                0nat
            }) + self.empties_from((index + 1) as u32)
        }
    }

    /// The empty board.
    pub fn new() -> (r: Self)
        ensures
            r.noughts == 0,
            r.crosses == 0,
            r.wf(),
    {
        proof {
            assert(0u32 & 0u32 == 0) by (bit_vector);
        }
        Self { noughts: 0, crosses: 0 }
    }

    /// Restores a board from its two persisted 9-bit masks, which must
    /// respect the disjointness invariant.
    pub fn from_state(noughts: u32, crosses: u32) -> (r: Self)
        requires
            noughts < 0x200,
            crosses < 0x200,
            noughts & crosses == 0,
        ensures
            r.noughts == noughts,
            r.crosses == crosses,
            r.wf(),
    {
        Self { noughts, crosses }
    }

    /// The mask of the cells Nought occupies.
    pub fn noughts(&self) -> (r: u32)
        ensures
            r == self.noughts,
    {
        self.noughts
    }

    /// The mask of the cells Cross occupies.
    pub fn crosses(&self) -> (r: u32)
        ensures
            r == self.crosses,
    {
        self.crosses
    }

    /// Sets cell `index` in Nought's mask. Does not check occupancy:
    /// callers only invoke this on a cell they verified empty.
    pub fn set_nought(&mut self, index: u32)
        requires
            index < 9,
        ensures
            *final(self) == old(self).marked(PlayerType::Nought, index),
    {
        self.noughts = self.noughts | (INITIAL_MASK >> index);
    }

    /// Sets cell `index` in Cross's mask. Does not check occupancy:
    /// callers only invoke this on a cell they verified empty.
    pub fn set_cross(&mut self, index: u32)
        requires
            index < 9,
        ensures
            *final(self) == old(self).marked(PlayerType::Cross, index),
    {
        self.crosses = self.crosses | (INITIAL_MASK >> index);
    }

    /// Whether cell `index` is still free.
    pub fn is_valid_move(&self, index: u32) -> (r: bool)
        requires
            index < 9,
        ensures
            r == self.empty_at(index),
    {
        let mask: u32 = INITIAL_MASK >> index;
        if (self.noughts | self.crosses) & mask == 0 {
            true
        } else {
            false
        }
    }
}

proof fn bv_mark_preserves(n: u32, c: u32, i: u32, j: u32)
    by (bit_vector)
    requires
        i < 9,
        j < 9,
    ensures
        i != j ==> ((n | cell_mask(i)) | c) & cell_mask(j) == (n | c) & cell_mask(j),
        i != j ==> (n | (c | cell_mask(i))) & cell_mask(j) == (n | c) & cell_mask(j),
        ((n | cell_mask(i)) | c) & cell_mask(i) != 0,
        (n | (c | cell_mask(i))) & cell_mask(i) != 0,
        i != j ==> (n | cell_mask(i)) & cell_mask(j) == n & cell_mask(j),
        i != j ==> (c | cell_mask(i)) & cell_mask(j) == c & cell_mask(j),
        (n | cell_mask(i)) & cell_mask(i) != 0,
        (c | cell_mask(i)) & cell_mask(i) != 0,
        (n | c) & cell_mask(i) == 0 ==> n & cell_mask(i) == 0 && c & cell_mask(i) == 0,
{
}

proof fn bv_comm(a: u32, b: u32)
    by (bit_vector)
    ensures
        a & b == b & a,
        a | b == b | a,
{
}

proof fn bv_mark_wf(n: u32, c: u32, i: u32)
    by (bit_vector)
    requires
        n < 0x200,
        c < 0x200,
        n & c == 0,
        (n | c) & cell_mask(i) == 0,
        i < 9,
    ensures
        (n | cell_mask(i)) < 0x200,
        (n | cell_mask(i)) & c == 0,
        c & (n | cell_mask(i)) == 0,
{
}

/// Marking one cell changes that cell alone: every other cell keeps its
/// emptiness and its value, and the marked cell becomes occupied, holding
/// the marking player's value.
pub proof fn lemma_marked_cells(g: TicTacToe, player: PlayerType, index: u32)
    requires
        index < 9,
    ensures
        forall|j: u32|
            j < 9 && j != index ==> g.marked(player, index).empty_at(j) == g.empty_at(j),
        forall|j: u32|
            j < 9 && j != index ==> g.marked(player, index).cell_value(j) == g.cell_value(j),
        !g.marked(player, index).empty_at(index),
        g.empty_at(index) ==> g.marked(player, index).cell_value(index) == player.mark_value(),
{
    assert forall|j: u32| j < 9 && j != index implies g.marked(player, index).empty_at(j)
        == g.empty_at(j) && g.marked(player, index).cell_value(j) == g.cell_value(j) by {
        bv_mark_preserves(g.noughts, g.crosses, index, j);
    }
    bv_mark_preserves(g.noughts, g.crosses, index, index);
}

/// Marking an empty cell of a well-formed board keeps the board
/// well-formed: the masks stay within nine bits and stay disjoint.
pub proof fn lemma_marked_wf(g: TicTacToe, player: PlayerType, index: u32)
    requires
        g.wf(),
        g.empty_at(index),
        index < 9,
    ensures
        g.marked(player, index).wf(),
{
    match player {
        PlayerType::Nought => bv_mark_wf(g.noughts, g.crosses, index),
        PlayerType::Cross => {
            bv_comm(g.noughts, g.crosses);
            bv_mark_wf(g.crosses, g.noughts, index);
        },
    }
}

/// Marking an empty cell removes exactly one cell from the empty count
/// of every scan range that contains it.
pub proof fn lemma_marked_empties(g: TicTacToe, player: PlayerType, index: u32, k: u32)
    requires
        index < 9,
        g.empty_at(index),
        k <= 9,
    ensures
        g.empties_from(k) == g.marked(player, index).empties_from(k) + (if k <= index {
            1int
        } else {
            0int
        }),
    decreases 9 - k,
{
    lemma_marked_cells(g, player, index);
    if k < 9 {
        lemma_marked_empties(g, player, index, (k + 1) as u32);
    }
}

} // verus!

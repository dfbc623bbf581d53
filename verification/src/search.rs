//! Exhaustive minimax search with alpha-beta pruning. Cross maximizes and
//! Nought minimizes the score of the terminal position: a Cross win is
//! worth 1, a Nought win -1 and a draw 0, with no depth weighting.
//!
//! The spec function `game_value` gives the unpruned full-depth minimax
//! value of a position; the executable search is proved to return it
//! whenever it lies inside the pruning window, so pruning never changes
//! the value reported at the root.

use vstd::prelude::*;

verus! {

use vstd::math::{max, min};
use vstd::pervasive::unreached;
use crate::board::{lemma_marked_empties, lemma_marked_wf, PlayerType, TicTacToe};
use crate::classify::{lemma_in_progress_has_empty, GameState};

/// The sentinel a scan for `player` starts from: worse than any
/// attainable score, so any real candidate replaces it.
pub open spec fn worst_for(player: PlayerType) -> int {
    match player {
        PlayerType::Nought => i32::MAX as int,
        PlayerType::Cross => i32::MIN as int,
    }
}

/// The full-depth minimax value of the position, for `player` to move:
/// the terminal score if the game is over, otherwise the best score
/// `player` can force over all empty cells.
pub open spec fn game_value(player: PlayerType, g: TicTacToe) -> int
    decreases g.empties_from(0), 10int,
{
    match g.state_spec() {
        GameState::NoughtWins(_) => -1,
        GameState::CrossWins(_) => 1,
        GameState::Draw => 0,
        GameState::InProgress => best_from(player, g, 0),
    }
}

/// The best score `player` can reach by marking one of the empty cells
/// `i..9` (the minimum for Nought, the maximum for Cross), or the
/// sentinel when none of them is empty.
pub open spec fn best_from(player: PlayerType, g: TicTacToe, i: u32) -> int
    decreases g.empties_from(0), 9 - i,
    via best_from_decreases
{
    if i >= 9 {
        worst_for(player)
    } else if g.empty_at(i) {
        let c = game_value(player.switch(), g.marked(player, i));
        let rest = best_from(player, g, (i + 1) as u32);
        if player == PlayerType::Nought {
            min(c, rest)
        } else {
            max(c, rest)
        }
    } else {
        best_from(player, g, (i + 1) as u32)
    }
}

#[via_fn]
proof fn best_from_decreases(player: PlayerType, g: TicTacToe, i: u32) {
    if i < 9 && g.empty_at(i) {
        lemma_marked_empties(g, player, i, 0);
    }
}

/// The score `player` reaches by marking the empty cell `index` and then
/// letting both sides play on perfectly.
pub open spec fn candidate_value(player: PlayerType, g: TicTacToe, index: u32) -> int {
    game_value(player.switch(), g.marked(player, index))
}

/// The smallest empty index whose candidate score equals the best score
/// over the whole board (the first-index-wins tie break), scanning from
/// `i`; 9 when the scan finds none.
pub open spec fn best_move_from(player: PlayerType, g: TicTacToe, i: u32) -> u32
    decreases 9 - i,
{
    if i >= 9 {
        9
    } else if g.empty_at(i) && candidate_value(player, g, i) == best_from(player, g, 0) {
        i
    } else {
        best_move_from(player, g, (i + 1) as u32)
    }
}

/// The move the search returns: the first empty index, in ascending
/// order, whose candidate score is the extreme over all empty cells.
pub open spec fn best_move_spec(player: PlayerType, g: TicTacToe) -> u32 {
    best_move_from(player, g, 0)
}

/// The exhaustive search itself; both operations are associated
/// functions, the type carries no state.
pub struct TicTacToeAI {}

impl TicTacToeAI {
    /// The game-theoretically optimal reply for `current_player`, defined
    /// only while the game is in progress: the empty cell whose candidate
    /// score is the extreme (highest for Cross, lowest for Nought) over
    /// all empty cells, and, among equally good cells, the one with the
    /// smallest index — the same strict-improvement tie break for both
    /// player roles.
    pub fn find_best_move(current_player: PlayerType, game: TicTacToe) -> (r: u32)
        requires
            game.wf(),
            game.state_spec() == GameState::InProgress,
        ensures
            r == best_move_spec(current_player, game),
            r < 9,
            game.empty_at(r),
            candidate_value(current_player, game, r) == best_from(current_player, game, 0),
            forall|j: u32|
                j < r && game.empty_at(j) ==> candidate_value(current_player, game, j)
                    != best_from(current_player, game, 0),
            forall|j: u32|
                j < 9 && game.empty_at(j) ==> (current_player == PlayerType::Nought
                    ==> candidate_value(current_player, game, j) >= best_from(
                    current_player,
                    game,
                    0,
                )) && (current_player == PlayerType::Cross ==> candidate_value(
                    current_player,
                    game,
                    j,
                ) <= best_from(current_player, game, 0)),
    {
        let next_player = current_player.switch_player();
        let mut best_move: Option<u32> = None;
        let mut i: u32 = 0;
        match current_player {
            PlayerType::Nought => {
                let mut best_score: i32 = i32::MAX;
                while i < 9
                    invariant
                        game.wf(),
                        game.state_spec() == GameState::InProgress,
                        current_player == PlayerType::Nought,
                        next_player == PlayerType::Cross,
                        i <= 9,
                        best_move is None ==> (forall|j: u32| j < i ==> !game.empty_at(j))
                            && best_score == i32::MAX,
                        best_move matches Some(m) ==> m < i && game.empty_at(m) && candidate_value(
                            current_player,
                            game,
                            m,
                        ) == best_score as int && forall|j: u32|
                            j < m && game.empty_at(j) ==> candidate_value(current_player, game, j)
                                != best_score as int,
                        forall|j: u32|
                            j < i && game.empty_at(j) ==> candidate_value(current_player, game, j)
                                >= best_score as int,
                    decreases 9 - i,
                {
                    if game.is_valid_move(i) {
                        let mut next_game = game;
                        next_game.set_nought(i);
                        proof {
                            lemma_marked_wf(game, current_player, i);
                            lemma_marked_empties(game, current_player, i, 0);
                            lemma_value_bounds(next_player, next_game);
                        }
                        let new_score = Self::minimax(next_player, next_game, i32::MIN, i32::MAX);
                        if new_score < best_score {
                            best_score = new_score;
                            best_move = Some(i);
                        }
                    }
                    i = i + 1;
                }
                Self::settle(current_player, game, best_move, best_score)
            },
            PlayerType::Cross => {
                let mut best_score: i32 = i32::MIN;
                while i < 9
                    invariant
                        game.wf(),
                        game.state_spec() == GameState::InProgress,
                        current_player == PlayerType::Cross,
                        next_player == PlayerType::Nought,
                        i <= 9,
                        best_move is None ==> (forall|j: u32| j < i ==> !game.empty_at(j))
                            && best_score == i32::MIN,
                        best_move matches Some(m) ==> m < i && game.empty_at(m) && candidate_value(
                            current_player,
                            game,
                            m,
                        ) == best_score as int && forall|j: u32|
                            j < m && game.empty_at(j) ==> candidate_value(current_player, game, j)
                                != best_score as int,
                        forall|j: u32|
                            j < i && game.empty_at(j) ==> candidate_value(current_player, game, j)
                                <= best_score as int,
                    decreases 9 - i,
                {
                    if game.is_valid_move(i) {
                        let mut next_game = game;
                        next_game.set_cross(i);
                        proof {
                            lemma_marked_wf(game, current_player, i);
                            lemma_marked_empties(game, current_player, i, 0);
                            lemma_value_bounds(next_player, next_game);
                        }
                        let new_score = Self::minimax(next_player, next_game, i32::MIN, i32::MAX);
                        if new_score > best_score {
                            best_score = new_score;
                            best_move = Some(i);
                        }
                    }
                    i = i + 1;
                }
                Self::settle(current_player, game, best_move, best_score)
            },
        }
    }

    /// Turns the scan's outcome into the returned index, showing that the
    /// recorded first strict improvement is exactly the specified first
    /// achiever of the extreme score. A full scan of an in-progress board
    /// always recorded a move, so the `None` arm is unreachable.
    fn settle(current_player: PlayerType, game: TicTacToe, best_move: Option<u32>, best_score: i32) -> (r: u32)
        requires
            game.wf(),
            game.state_spec() == GameState::InProgress,
            best_move is None ==> forall|j: u32| j < 9 ==> !game.empty_at(j),
            best_move matches Some(m) ==> m < 9 && game.empty_at(m) && candidate_value(
                current_player,
                game,
                m,
            ) == best_score as int && forall|j: u32|
                j < m && game.empty_at(j) ==> candidate_value(current_player, game, j)
                    != best_score as int,
            forall|j: u32|
                j < 9 && game.empty_at(j) ==> (current_player == PlayerType::Nought
                    ==> candidate_value(current_player, game, j) >= best_score as int) && (
                current_player == PlayerType::Cross ==> candidate_value(current_player, game, j)
                    <= best_score as int),
        ensures
            r == best_move_spec(current_player, game),
            best_score as int == best_from(current_player, game, 0),
            r < 9,
            game.empty_at(r),
            candidate_value(current_player, game, r) == best_from(current_player, game, 0),
            forall|j: u32|
                j < r && game.empty_at(j) ==> candidate_value(current_player, game, j)
                    != best_from(current_player, game, 0),
    {
        proof {
            lemma_in_progress_has_empty(game);
            let w = choose|j: u32| j < 9 && game.empty_at(j);
            assert(0 <= w && w < 9 && game.empty_at(w));
        }
        match best_move {
            Some(m) => {
                proof {
                    lemma_best_from_achieved(current_player, game, 0);
                    // name the achiever, so the scan's score bound applies
                    // to a cell whose candidate equals the scan value
                    let a = choose|j: u32|
                        0 <= j && j < 9 && game.empty_at(j) && candidate_value(
                            current_player,
                            game,
                            j,
                        ) == best_from(current_player, game, 0);
                    lemma_best_from_le(current_player, game, 0, m);
                    assert(best_score as int == best_from(current_player, game, 0));
                    lemma_best_move_from(current_player, game, 0);
                    let m2 = best_move_from(current_player, game, 0);
                    assert(m == m2) by {
                        if m2 < m {
                            assert(candidate_value(current_player, game, m2) != best_score as int);
                        }
                        if m < m2 {
                            assert(candidate_value(current_player, game, m) != best_from(
                                current_player,
                                game,
                                0,
                            ));
                        }
                    }
                }
                m
            },
            None => unreached(),
        }
    }

    /// Alpha-beta pruned minimax. The returned score equals the unpruned
    /// full-depth value whenever that value lies inside the pruning
    /// window; when the search fails low (for the minimizer) or high
    /// (for the maximizer), the returned score is still a bound of the
    /// true value on the side the pruning ancestor cares about, so
    /// pruning never changes the value chosen at the root.
    pub fn minimax(current_player: PlayerType, game: TicTacToe, alpha: i32, beta: i32) -> (r: i32)
        requires
            game.wf(),
        ensures
            current_player == PlayerType::Nought ==> game_value(current_player, game) <= r && (r
                <= alpha || r == game_value(current_player, game)),
            current_player == PlayerType::Cross ==> r <= game_value(current_player, game) && (r
                >= beta || r == game_value(current_player, game)),
        decreases game.empties_from(0),
    {
        match game.state() {
            GameState::NoughtWins(_) => -1,
            GameState::CrossWins(_) => 1,
            GameState::Draw => 0,
            GameState::InProgress => {
                let next_player = current_player.switch_player();
                match current_player {
                    // minimizer behaviour: thread the running minimum into
                    // each recursive call as the new upper bound, and stop
                    // scanning once it cannot exceed alpha any more
                    PlayerType::Nought => {
                        let mut best_score: i32 = i32::MAX;
                        let mut i: u32 = 0;
                        proof {
                            lemma_best_from_props(current_player, game, 0);
                        }
                        while i < 9 && alpha < best_score
                            invariant
                                game.wf(),
                                game.state_spec() == GameState::InProgress,
                                current_player == PlayerType::Nought,
                                next_player == PlayerType::Cross,
                                i <= 9,
                                min(best_score as int, best_from(current_player, game, i))
                                    == best_from(current_player, game, 0),
                            decreases 9 - i,
                        {
                            if game.is_valid_move(i) {
                                let mut next_game = game;
                                next_game.set_nought(i);
                                proof {
                                    lemma_marked_wf(game, current_player, i);
                                    lemma_marked_empties(game, current_player, i, 0);
                                }
                                let new_score = Self::minimax(
                                    next_player,
                                    next_game,
                                    alpha,
                                    best_score,
                                );
                                if new_score < best_score {
                                    best_score = new_score;
                                }
                            }
                            i = i + 1;
                        }
                        best_score
                    },
                    // maximizer behaviour, symmetric: thread the running
                    // maximum as the new lower bound and stop at beta
                    PlayerType::Cross => {
                        let mut best_score: i32 = i32::MIN;
                        let mut i: u32 = 0;
                        proof {
                            lemma_best_from_props(current_player, game, 0);
                        }
                        while i < 9 && best_score < beta
                            invariant
                                game.wf(),
                                game.state_spec() == GameState::InProgress,
                                current_player == PlayerType::Cross,
                                next_player == PlayerType::Nought,
                                i <= 9,
                                max(best_score as int, best_from(current_player, game, i))
                                    == best_from(current_player, game, 0),
                            decreases 9 - i,
                        {
                            if game.is_valid_move(i) {
                                let mut next_game = game;
                                next_game.set_cross(i);
                                proof {
                                    lemma_marked_wf(game, current_player, i);
                                    lemma_marked_empties(game, current_player, i, 0);
                                }
                                let new_score = Self::minimax(
                                    next_player,
                                    next_game,
                                    best_score,
                                    beta,
                                );
                                if new_score > best_score {
                                    best_score = new_score;
                                }
                            }
                            i = i + 1;
                        }
                        best_score
                    },
                }
            },
        }
    }
}

/// The minimax value of any well-formed position lies between the two
/// terminal scores.
pub proof fn lemma_value_bounds(player: PlayerType, g: TicTacToe)
    requires
        g.wf(),
    ensures
        -1 <= game_value(player, g) <= 1,
    decreases g.empties_from(0), 10int,
{
    if g.state_spec() == GameState::InProgress {
        lemma_in_progress_has_empty(g);
        let w = choose|i: u32| i < 9 && g.empty_at(i);
        assert(0 <= w && w < 9 && g.empty_at(w));
        lemma_best_from_props(player, g, 0);
    }
}

/// Bounds for a partial scan: the scan of `i..9` stays between the
/// sentinel and the scores proper, lands in the score range as soon as
/// one cell of the range is empty, and stays at the sentinel when none
/// is.
pub proof fn lemma_best_from_props(player: PlayerType, g: TicTacToe, i: u32)
    requires
        g.wf(),
        i <= 9,
    ensures
        player == PlayerType::Nought ==> -1 <= best_from(player, g, i) <= i32::MAX as int,
        player == PlayerType::Cross ==> i32::MIN as int <= best_from(player, g, i) <= 1,
        (exists|j: u32| i <= j && j < 9 && g.empty_at(j)) ==> -1 <= best_from(player, g, i) <= 1,
        (forall|j: u32| i <= j && j < 9 ==> !g.empty_at(j)) ==> best_from(player, g, i)
            == worst_for(player),
    decreases g.empties_from(0), 9 - i,
{
    if i < 9 {
        lemma_best_from_props(player, g, (i + 1) as u32);
        if g.empty_at(i) {
            lemma_marked_wf(g, player, i);
            lemma_marked_empties(g, player, i, 0);
            lemma_value_bounds(player.switch(), g.marked(player, i));
        } else {
            if exists|j: u32| i <= j && j < 9 && g.empty_at(j) {
                let w = choose|j: u32| i <= j && j < 9 && g.empty_at(j);
                assert((i + 1) as u32 <= w && w < 9 && g.empty_at(w));
            }
        }
    }
}

/// The scan value is at least as good, for the scanning player, as any
/// single candidate inside the scanned range.
pub proof fn lemma_best_from_le(player: PlayerType, g: TicTacToe, i: u32, j: u32)
    requires
        g.wf(),
        i <= j,
        j < 9,
        g.empty_at(j),
    ensures
        player == PlayerType::Nought ==> best_from(player, g, i) <= candidate_value(player, g, j),
        player == PlayerType::Cross ==> best_from(player, g, i) >= candidate_value(player, g, j),
    decreases j - i,
{
    if i < j {
        lemma_best_from_le(player, g, (i + 1) as u32, j);
    }
}

/// Some empty cell of the scanned range achieves the scan value, as long
/// as the range holds an empty cell at all.
pub proof fn lemma_best_from_achieved(player: PlayerType, g: TicTacToe, i: u32)
    requires
        g.wf(),
        i <= 9,
        exists|j: u32| i <= j && j < 9 && g.empty_at(j),
    ensures
        exists|j: u32|
            i <= j && j < 9 && g.empty_at(j) && candidate_value(player, g, j) == best_from(
                player,
                g,
                i,
            ),
    decreases 9 - i,
{
    let w = choose|j: u32| i <= j && j < 9 && g.empty_at(j);
    if g.empty_at(i) {
        lemma_marked_wf(g, player, i);
        lemma_value_bounds(player.switch(), g.marked(player, i));
        let c = candidate_value(player, g, i);
        let rest = best_from(player, g, (i + 1) as u32);
        if exists|j: u32| i + 1 <= j && j < 9 && g.empty_at(j) {
            lemma_best_from_achieved(player, g, (i + 1) as u32);
            let w2 = choose|j: u32|
                i + 1 <= j && j < 9 && g.empty_at(j) && candidate_value(player, g, j) == best_from(
                    player,
                    g,
                    (i + 1) as u32,
                );
            if best_from(player, g, i) == c {
                assert(i <= i && i < 9 && g.empty_at(i) && candidate_value(player, g, i)
                    == best_from(player, g, i));
            } else {
                assert(best_from(player, g, i) == rest);
                assert(i <= w2 && w2 < 9 && g.empty_at(w2) && candidate_value(player, g, w2)
                    == best_from(player, g, i));
            }
        } else {
            lemma_best_from_props(player, g, (i + 1) as u32);
            assert(rest == worst_for(player));
            assert(best_from(player, g, i) == c);
            assert(i <= i && i < 9 && g.empty_at(i) && candidate_value(player, g, i) == best_from(
                player,
                g,
                i,
            ));
        }
    } else {
        assert(i + 1 <= w && w < 9 && g.empty_at(w));
        lemma_best_from_achieved(player, g, (i + 1) as u32);
        let w2 = choose|j: u32|
            i + 1 <= j && j < 9 && g.empty_at(j) && candidate_value(player, g, j) == best_from(
                player,
                g,
                (i + 1) as u32,
            );
        assert(i <= w2 && w2 < 9 && g.empty_at(w2) && candidate_value(player, g, w2) == best_from(
            player,
            g,
            i,
        ));
    }
}

/// The scan for the best move returns the first empty index achieving
/// the board-wide best score, provided such an index lies in the range.
pub proof fn lemma_best_move_from(player: PlayerType, g: TicTacToe, i: u32)
    requires
        g.wf(),
        i <= 9,
        exists|j: u32|
            i <= j && j < 9 && g.empty_at(j) && candidate_value(player, g, j) == best_from(
                player,
                g,
                0,
            ),
    ensures
        ({
            let m = best_move_from(player, g, i);
            &&& i <= m && m < 9
            &&& g.empty_at(m)
            &&& candidate_value(player, g, m) == best_from(player, g, 0)
            &&& forall|j: u32|
                i <= j && j < m && g.empty_at(j) ==> candidate_value(player, g, j) != best_from(
                    player,
                    g,
                    0,
                )
        }),
    decreases 9 - i,
{
    let s = best_from(player, g, 0);
    let w = choose|j: u32|
        i <= j && j < 9 && g.empty_at(j) && candidate_value(player, g, j) == s;
    if i < 9 && !(g.empty_at(i) && candidate_value(player, g, i) == s) {
        assert(i + 1 <= w && w < 9 && g.empty_at(w) && candidate_value(player, g, w) == s);
        lemma_best_move_from(player, g, (i + 1) as u32);
    }
}

/// The first-index tie break, stated for both player roles: the chosen
/// move is an empty cell achieving the extreme candidate score, every
/// empty cell before it scores strictly worse than the extreme, and no
/// empty cell anywhere scores better. Since the extreme equals the value
/// of the position itself, the chosen move hands the opponent a position
/// of the same minimax value: optimal play never worsens the guaranteed
/// outcome.
pub proof fn lemma_best_move_props(player: PlayerType, g: TicTacToe)
    requires
        g.wf(),
        g.state_spec() == GameState::InProgress,
    ensures
        ({
            let m = best_move_spec(player, g);
            let s = best_from(player, g, 0);
            &&& m < 9
            &&& g.empty_at(m)
            &&& candidate_value(player, g, m) == s
            &&& candidate_value(player, g, m) == game_value(player, g)
            &&& forall|j: u32|
                j < m && g.empty_at(j) ==> candidate_value(player, g, j) != s
            &&& forall|j: u32|
                j < 9 && g.empty_at(j) ==> (player == PlayerType::Nought ==> candidate_value(
                    player,
                    g,
                    j,
                ) >= s) && (player == PlayerType::Cross ==> candidate_value(player, g, j) <= s)
        }),
{
    lemma_in_progress_has_empty(g);
    let w = choose|i: u32| i < 9 && g.empty_at(i);
    assert(0 <= w && w < 9 && g.empty_at(w));
    lemma_best_from_achieved(player, g, 0);
    lemma_best_move_from(player, g, 0);
    assert forall|j: u32| j < 9 && g.empty_at(j) implies (player == PlayerType::Nought
        ==> candidate_value(player, g, j) >= best_from(player, g, 0)) && (player
        == PlayerType::Cross ==> candidate_value(player, g, j) <= best_from(player, g, 0)) by {
        lemma_best_from_le(player, g, 0, j);
    }
}

} // verus!

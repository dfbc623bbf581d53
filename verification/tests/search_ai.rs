use tic_tac_toe::{GameState, PlayerType, TicTacToe, TicTacToeAI};

#[test]
fn minimax_scores_terminal_positions() {
    let nought_won = TicTacToe::from_state(0b111_000_000, 0b000_110_010);
    assert_eq!(TicTacToeAI::minimax(PlayerType::Cross, nought_won, i32::MIN, i32::MAX), -1);
    let cross_won = TicTacToe::from_state(0b000_110_010, 0b111_000_000);
    assert_eq!(TicTacToeAI::minimax(PlayerType::Nought, cross_won, i32::MIN, i32::MAX), 1);
    let draw = TicTacToe::from_state(0b010_110_101, 0b101_001_010);
    assert_eq!(TicTacToeAI::minimax(PlayerType::Cross, draw, i32::MIN, i32::MAX), 0);
}

#[test]
fn minimax_sees_an_immediate_win_for_either_side() {
    // Cross holds cells 0 and 1, Nought holds 3 and 4; whoever moves
    // completes a line at once.
    let b = TicTacToe::from_state(0b000_110_000, 0b110_000_000);
    assert_eq!(TicTacToeAI::minimax(PlayerType::Cross, b, i32::MIN, i32::MAX), 1);
    assert_eq!(TicTacToeAI::minimax(PlayerType::Nought, b, i32::MIN, i32::MAX), -1);
}

#[test]
fn minimax_values_the_empty_board_as_a_draw() {
    let b = TicTacToe::new();
    assert_eq!(TicTacToeAI::minimax(PlayerType::Cross, b, i32::MIN, i32::MAX), 0);
    assert_eq!(TicTacToeAI::minimax(PlayerType::Nought, b, i32::MIN, i32::MAX), 0);
}

#[test]
fn find_best_move_takes_a_guaranteed_win() {
    // Cross wins at once at cell 2 (Row0). Nought could win at once at
    // cell 5 (Row1), but taking cell 2 also forces a win by the double
    // threat on Row1 and Dia1 — scores carry no depth weighting, so both
    // cells score -1 and the tie break keeps the smaller index 2.
    let b = TicTacToe::from_state(0b000_110_000, 0b110_000_000);
    assert_eq!(TicTacToeAI::find_best_move(PlayerType::Cross, b), 2);
    assert_eq!(TicTacToeAI::find_best_move(PlayerType::Nought, b), 2);
}

#[test]
fn find_best_move_blocks_a_threat() {
    // Cross holds 0 and 1 and threatens Row0 at cell 2; Nought, with
    // only cell 4, must block there.
    let b = TicTacToe::from_state(0b000_010_000, 0b110_000_000);
    assert_eq!(TicTacToeAI::find_best_move(PlayerType::Nought, b), 2);
}

#[test]
fn tie_break_returns_the_smallest_index_for_both_roles() {
    // On the empty board every first move forces a draw, so all nine
    // cells tie; the first index wins for either player role.
    let empty = TicTacToe::new();
    assert_eq!(TicTacToeAI::find_best_move(PlayerType::Cross, empty), 0);
    assert_eq!(TicTacToeAI::find_best_move(PlayerType::Nought, empty), 0);
    // Cells 7 and 8 are the only empty cells and both lead to a draw for
    // either side; the smaller index is chosen by both roles.
    let b = TicTacToe::from_state(0b001_110_000, 0b110_001_100);
    assert_eq!(TicTacToeAI::find_best_move(PlayerType::Nought, b), 7);
    assert_eq!(TicTacToeAI::find_best_move(PlayerType::Cross, b), 7);
}

#[test]
fn optimal_play_from_the_empty_board_is_a_draw() {
    // Both sides driven by the search: the single game it produces must
    // end in the forced draw of perfect play.
    let mut board = TicTacToe::new();
    let mut player = PlayerType::Cross;
    let mut moves: u32 = 0;
    while matches!(board.state(), GameState::InProgress) {
        let m = TicTacToeAI::find_best_move(player, board);
        match player {
            PlayerType::Cross => board.set_cross(m),
            PlayerType::Nought => board.set_nought(m),
        }
        player = player.switch_player();
        moves += 1;
        assert!(moves <= 9);
    }
    assert_eq!(board.state(), GameState::Draw);
    assert_eq!(moves, 9);
}

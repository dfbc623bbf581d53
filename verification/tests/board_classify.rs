use tic_tac_toe::{BoardValues, GameState, PlayerType, TicTacToe, WinningPattern};

#[test]
fn new_board_is_empty_and_in_progress() {
    let b = TicTacToe::new();
    assert_eq!(b.noughts(), 0);
    assert_eq!(b.crosses(), 0);
    for i in 0..9u32 {
        assert!(b.is_valid_move(i));
    }
    assert_eq!(b.state(), GameState::InProgress);
}

#[test]
fn from_state_keeps_the_masks() {
    let b = TicTacToe::from_state(0b100_000_000, 0b000_000_001);
    assert_eq!(b.noughts(), 0b100_000_000);
    assert_eq!(b.crosses(), 0b000_000_001);
}

#[test]
fn set_nought_sets_the_bit_of_the_cell() {
    let mut b = TicTacToe::new();
    b.set_nought(0);
    assert_eq!(b.noughts(), 0b100_000_000);
    assert_eq!(b.crosses(), 0);
    b.set_nought(8);
    assert_eq!(b.noughts(), 0b100_000_001);
    assert!(!b.is_valid_move(0));
    assert!(!b.is_valid_move(8));
    assert!(b.is_valid_move(4));
}

#[test]
fn set_cross_sets_the_bit_of_the_cell() {
    let mut b = TicTacToe::new();
    b.set_cross(4);
    assert_eq!(b.crosses(), 0b000_010_000);
    assert_eq!(b.noughts(), 0);
    assert!(!b.is_valid_move(4));
}

#[test]
fn switch_player_alternates() {
    assert_eq!(PlayerType::Nought.switch_player(), PlayerType::Cross);
    assert_eq!(PlayerType::Cross.switch_player(), PlayerType::Nought);
}

#[test]
fn points_of_every_line() {
    assert_eq!(WinningPattern::Row0.points(), ((0, 0), (2, 0)));
    assert_eq!(WinningPattern::Row1.points(), ((0, 1), (2, 1)));
    assert_eq!(WinningPattern::Row2.points(), ((0, 2), (2, 2)));
    assert_eq!(WinningPattern::Col0.points(), ((0, 0), (0, 2)));
    assert_eq!(WinningPattern::Col1.points(), ((1, 0), (1, 2)));
    assert_eq!(WinningPattern::Col2.points(), ((2, 0), (2, 2)));
    assert_eq!(WinningPattern::Dia0.points(), ((0, 0), (2, 2)));
    assert_eq!(WinningPattern::Dia1.points(), ((0, 2), (2, 0)));
}

#[test]
fn classify_reports_each_nought_line() {
    let lines = [
        (0b111_000_000, WinningPattern::Row0),
        (0b000_111_000, WinningPattern::Row1),
        (0b000_000_111, WinningPattern::Row2),
        (0b100_100_100, WinningPattern::Col0),
        (0b010_010_010, WinningPattern::Col1),
        (0b001_001_001, WinningPattern::Col2),
        (0b100_010_001, WinningPattern::Dia0),
        (0b001_010_100, WinningPattern::Dia1),
    ];
    for (mask, pattern) in lines {
        let b = TicTacToe::from_state(mask, 0);
        assert_eq!(b.state(), GameState::NoughtWins(pattern));
    }
}

#[test]
fn classify_reports_each_cross_line() {
    let lines = [
        (0b111_000_000, WinningPattern::Row0),
        (0b000_111_000, WinningPattern::Row1),
        (0b000_000_111, WinningPattern::Row2),
        (0b100_100_100, WinningPattern::Col0),
        (0b010_010_010, WinningPattern::Col1),
        (0b001_001_001, WinningPattern::Col2),
        (0b100_010_001, WinningPattern::Dia0),
        (0b001_010_100, WinningPattern::Dia1),
    ];
    for (mask, pattern) in lines {
        let b = TicTacToe::from_state(0, mask);
        assert_eq!(b.state(), GameState::CrossWins(pattern));
    }
}

#[test]
fn classify_full_mixed_board_is_draw() {
    // X O X / O O X / O X O, indices 0..8 = X,O,X,O,O,X,O,X,O
    let b = TicTacToe::from_state(0b010_110_101, 0b101_001_010);
    assert_eq!(b.state(), GameState::Draw);
}

#[test]
fn classify_partial_board_is_in_progress() {
    let b = TicTacToe::from_state(0b000_110_000, 0b110_000_000);
    assert_eq!(b.state(), GameState::InProgress);
}

#[test]
fn classify_scans_patterns_in_fixed_order() {
    // Noughts cover both Row0 and Col0: the scan meets Row0 first.
    let b = TicTacToe::from_state(0b111_100_100, 0);
    assert_eq!(b.state(), GameState::NoughtWins(WinningPattern::Row0));
    // Crosses cover Row2, noughts cover Col0: Row2 precedes Col0 in the
    // scan, so Cross's line decides even though Nought is checked first
    // within each pattern.
    let b = TicTacToe::from_state(0b100_100_100, 0b000_000_111);
    assert_eq!(b.state(), GameState::CrossWins(WinningPattern::Row2));
    // Within one pattern position, Nought is checked before Cross.
    let b = TicTacToe::from_state(0b111_000_000, 0b000_111_000);
    assert_eq!(b.state(), GameState::NoughtWins(WinningPattern::Row0));
    let b = TicTacToe::from_state(0b000_111_000, 0b111_000_000);
    assert_eq!(b.state(), GameState::CrossWins(WinningPattern::Row0));
}

#[test]
fn decode_of_the_full_mixed_board() {
    let game = tic_tac_toe::TicTacToeGame::continue_from(
        TicTacToe::from_state(0b010_110_101, 0b101_001_010),
        PlayerType::Cross,
        false,
    );
    let cells = game.board();
    assert_eq!(
        cells,
        vec![
            BoardValues::Cross,
            BoardValues::Nought,
            BoardValues::Cross,
            BoardValues::Nought,
            BoardValues::Nought,
            BoardValues::Cross,
            BoardValues::Nought,
            BoardValues::Cross,
            BoardValues::Nought,
        ]
    );
}

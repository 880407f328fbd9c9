use tictactoe::board::{Board, Cell, GameStatus, PlacementError};
use tictactoe::player::Player;

#[test]
fn empty_board_is_ongoing() {
    let board = Board::default();
    assert_eq!(GameStatus::Ongoing, board.status());
}

#[test]
fn player_one_wins_on_main_diagonal() {
    let mut board = Board::default();
    let _ = board.set_value(Player::ONE, (0, 0));
    let _ = board.set_value(Player::ONE, (1, 1));
    let _ = board.set_value(Player::ONE, (2, 2));
    assert_eq!(GameStatus::Won(Player::ONE), board.status());
}

#[test]
fn player_two_wins_on_anti_diagonal() {
    let mut board = Board::default();
    let _ = board.set_value(Player::TWO, (0, 2));
    let _ = board.set_value(Player::TWO, (1, 1));
    let _ = board.set_value(Player::TWO, (2, 0));
    assert_eq!(GameStatus::Won(Player::TWO), board.status());
}

#[test]
fn full_board_without_winner_is_a_draw() {
    let mut board = Board::default();
    //  two | one | two
    //  one | one | two
    //  two | two | one
    let _ = board.set_value(Player::TWO, (0, 0));
    let _ = board.set_value(Player::ONE, (0, 1));
    let _ = board.set_value(Player::TWO, (0, 2));

    let _ = board.set_value(Player::ONE, (1, 0));
    let _ = board.set_value(Player::ONE, (1, 1));
    let _ = board.set_value(Player::TWO, (1, 2));

    let _ = board.set_value(Player::TWO, (2, 0));
    let _ = board.set_value(Player::TWO, (2, 1));
    let _ = board.set_value(Player::ONE, (2, 2));

    assert_eq!(GameStatus::Draw, board.status());
}

#[test]
fn second_placement_on_the_same_square_is_rejected() {
    let mut board = Board::default();
    assert_eq!(Ok(()), board.set_value(Player::ONE, (0, 0)));
    assert_eq!(
        Err(PlacementError::AlreadyOccupied),
        board.set_value(Player::TWO, (0, 0))
    );
    assert_eq!(Cell::OccupiedBy(Player::ONE), board.render_rows()[0][0]);
}

#[test]
fn out_of_range_placement_leaves_the_grid_unchanged() {
    let mut board = Board::default();
    assert_eq!(
        Err(PlacementError::OutOfRange),
        board.set_value(Player::ONE, (5, 7))
    );
    assert_eq!(vec![vec![Cell::Empty; 3]; 3], board.render_rows());
}

#[test]
fn partial_board_without_winner_is_ongoing() {
    let mut board = Board::default();
    let _ = board.set_value(Player::ONE, (0, 0));
    let _ = board.set_value(Player::TWO, (1, 1));
    let _ = board.set_value(Player::ONE, (0, 1));
    assert_eq!(GameStatus::Ongoing, board.status());
}

#[test]
fn every_row_and_column_can_win() {
    for row in 0..3 {
        let mut board = Board::default();
        let _ = board.set_value(Player::ONE, (row, 0));
        let _ = board.set_value(Player::ONE, (row, 1));
        let _ = board.set_value(Player::ONE, (row, 2));
        assert_eq!(GameStatus::Won(Player::ONE), board.status());
    }
    for col in 0..3 {
        let mut board = Board::default();
        let _ = board.set_value(Player::TWO, (0, col));
        let _ = board.set_value(Player::TWO, (1, col));
        let _ = board.set_value(Player::TWO, (2, col));
        assert_eq!(GameStatus::Won(Player::TWO), board.status());
    }
}

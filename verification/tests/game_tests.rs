use tictactoe::board::PlacementError;
use tictactoe::game::{Game, is_quit};
use tictactoe::player::Player;

#[test]
fn resetting_row_col_works() {
    let mut game = Game::default();
    game.row = Some(1);
    game.col = Some(3);
    game.reset_row_col();
    assert_eq!(None, game.row);
    assert_eq!(None, game.col);
}

#[test]
fn swapping_player_works() {
    let mut game = Game::default();
    game.player = Player::ONE;
    game.swap_player();
    assert_eq!(Player::TWO, game.player);
    game.swap_player();
    assert_eq!(Player::ONE, game.player);
}

#[test]
fn is_quit_works() {
    assert!(is_quit("q"));
    assert!(is_quit("quit"));
    assert!(!is_quit("not q"));
}

#[test]
fn submitting_a_row_is_recorded_once() {
    let mut game = Game::new();
    assert!(game.submit_row(1));
    assert_eq!(Some(1), game.row);
    assert!(!game.submit_row(2));
    assert_eq!(Some(1), game.row);
}

#[test]
fn successful_move_swaps_player_and_clears_input() {
    let mut game = Game::new();
    assert!(game.submit_row(0));
    let placed = game.submit_col(0);
    assert_eq!(Ok(()), placed);
    assert_eq!(Player::TWO, game.player);
    assert_eq!(None, game.row);
    assert_eq!(None, game.col);
}

#[test]
fn rejected_move_keeps_player_and_clears_input() {
    let mut game = Game::new();
    assert!(game.submit_row(0));
    assert_eq!(Ok(()), game.submit_col(0));

    // Player TWO aims at the square ONE already holds.
    assert!(game.submit_row(0));
    let rejected = game.submit_col(0);
    assert_eq!(Err(PlacementError::AlreadyOccupied), rejected);
    assert_eq!(Player::TWO, game.player);
    assert_eq!(None, game.row);
    assert_eq!(None, game.col);
}

#[test]
fn out_of_range_move_does_not_consume_the_turn() {
    let mut game = Game::new();
    assert!(game.submit_row(7));
    let rejected = game.submit_col(0);
    assert_eq!(Err(PlacementError::OutOfRange), rejected);
    assert_eq!(Player::ONE, game.player);
    assert_eq!(None, game.row);
    assert_eq!(None, game.col);
}

#[test]
fn new_game_starts_clean() {
    let game = Game::new();
    assert_eq!(Player::ONE, game.player);
    assert_eq!(None, game.row);
    assert_eq!(None, game.col);
    assert_eq!(None, game.board.get_winner());
}

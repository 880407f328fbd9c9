use tictactoe::player::Player;

#[test]
fn can_represent_players() {
    let one = Player::ONE.glyph();
    let two = Player::TWO.glyph();
    assert_eq!(("🧠".to_string(), "🍺".to_string()), (one, two));
}

#[test]
fn other_alternates_between_the_two_players() {
    assert_eq!(Player::TWO, Player::ONE.other());
    assert_eq!(Player::ONE, Player::TWO.other());
}

#[test]
fn default_player_moves_first() {
    assert_eq!(Player::ONE, Player::default());
}

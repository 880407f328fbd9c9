use vstd::prelude::*;

use crate::board::{Board, PlacementError, empty_grid, place_grid, place_result};
use crate::player::Player;

verus! {

/// The turn driver: the active player and the coordinates of the pending
/// move, the row always supplied before the column. Terminal conditions
/// are the board's business; the driver only applies moves and alternates.
pub struct Game {
    pub board: Board,
    pub player: Player,
    pub row: Option<usize>,
    pub col: Option<usize>,
}

impl Default for Game {
    /// A fresh game: an empty board, the first player to move, and no
    /// pending coordinates.
    fn default() -> (r: Self)
        ensures
            r.board@ == empty_grid(),
            r.player == Player::ONE,
            r.row is None,
            r.col is None,
    {
        Game { board: Board::default(), player: Player::default(), row: None, col: None }
    }
}

impl Game {
    /// A fresh game, ready for the first player's row input.
    pub fn new() -> (r: Self)
        ensures
            r.board@ == empty_grid(),
            r.player == Player::ONE,
            r.row is None,
            r.col is None,
    {
        Game::default()
    }

    /// Clears the pending coordinates, so that the next input starts a
    /// move from scratch.
    pub fn reset_row_col(&mut self)
        ensures
            final(self).row is None,
            final(self).col is None,
            final(self).board == old(self).board,
            final(self).player == old(self).player,
    {
        self.row = None;
        self.col = None;
    }

    /// Hands the turn to the opposing player.
    pub fn swap_player(&mut self)
        ensures
            final(self).player == old(self).player.spec_other(),
            final(self).board == old(self).board,
            final(self).row == old(self).row,
            final(self).col == old(self).col,
    {
        self.player = self.player.other();
    }

    /// Records the pending row, once: a second row before a column has
    /// been supplied is ignored. Returns whether the value was recorded.
    pub fn submit_row(&mut self, value: usize) -> (accepted: bool)
        ensures
            accepted == (old(self).row is None),
            accepted ==> final(self).row == Some(value),
            !accepted ==> final(self).row == old(self).row,
            final(self).col == old(self).col,
            final(self).board == old(self).board,
            final(self).player == old(self).player,
    {
        match self.row {
            None => {
                self.row = Some(value);
                true
            },
            Some(_) => false,
        }
    }

    /// Records the pending column and attempts the move at the pending
    /// coordinates. On success the turn passes to the other player; on a
    /// rejected move the active player keeps the turn and sees the error.
    /// Either way the pending coordinates are cleared for a fresh prompt.
    /// A column may only be supplied once a row is pending.
    pub fn submit_col(&mut self, value: usize) -> (r: Result<(), PlacementError>)
        requires
            old(self).row is Some,
        ensures
            r == place_result(old(self).board@, old(self).player, old(self).row->0 as int, value as int),
            final(self).board@ == place_grid(
                old(self).board@,
                old(self).player,
                old(self).row->0 as int,
                value as int,
            ),
            r is Ok ==> final(self).player == old(self).player.spec_other(),
            r is Err ==> final(self).player == old(self).player,
            final(self).row is None,
            final(self).col is None,
    {
        if let Some(row) = self.row {
            self.col = Some(value);
            let result = self.board.set_value(self.player, (row, value));
            match result {
                Ok(()) => {
                    self.swap_player();
                    self.reset_row_col();
                    Ok(())
                },
                Err(e) => {
                    self.reset_row_col();
                    Err(e)
                },
            }
        } else {
            unreached()
        }
    }
}

/// Whether an input line asks to leave the game.
pub fn is_quit(command: &str) -> (r: bool)
    ensures
        r == (command@ == "q"@ || command@ == "quit"@),
{
    let line = command.to_owned();
    let q: String = "q".to_owned();
    let quit: String = "quit".to_owned();
    line == q || line == quit
}

} // verus!

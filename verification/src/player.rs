use vstd::prelude::*;

verus! {

/// One of the two player identities. The game alternates between them;
/// a player has no behaviour beyond identity, alternation and a glyph.
#[derive(Debug, Clone, Copy, PartialEq, Eq, Structural)]
pub enum Player {
    ONE,
    TWO,
}

impl Player {
    /// The opposing player: the two identities alternate with no third state.
    pub open spec fn spec_other(self) -> Player {
        match self {
            Player::ONE => Player::TWO,
            Player::TWO => Player::ONE,
        }
    }

    /// Returns the opposing player.
    pub fn other(self) -> (r: Player)
        ensures
            r == self.spec_other(),
    {
        match self {
            Player::ONE => Player::TWO,
            Player::TWO => Player::ONE,
        }
    }

    /// The glyph that represents this player on a display.
    pub open spec fn spec_glyph(self) -> Seq<char> {
        match self {
            Player::ONE => "🧠"@,
            Player::TWO => "🍺"@,
        }
    }

    /// Returns the display glyph of this player.
    pub fn glyph(&self) -> (r: String)
        ensures
            r@ == self.spec_glyph(),
    {
        match self {
            Player::ONE => "🧠".to_owned(),
            Player::TWO => "🍺".to_owned(),
        }
    }
}

impl Default for Player {
    /// The player who moves first.
    fn default() -> (r: Self)
        ensures
            r == Player::ONE,
    {
        Player::ONE
    }
}

} // verus!

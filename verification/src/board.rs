use vstd::prelude::*;

use crate::player::Player;

verus! {

broadcast use vstd::array::group_array_axioms;

/// One square of the grid: empty until a player occupies it, and a square
/// never reverts to empty.
#[derive(Debug, Clone, Copy, PartialEq, Eq, Structural)]
pub enum Cell {
    Empty,
    OccupiedBy(Player),
}

/// Why a placement was rejected. Both errors are local to the one attempt:
/// the grid is left untouched and the turn is not consumed.
#[derive(Debug, Clone, Copy, PartialEq, Eq, Structural)]
pub enum PlacementError {
    OutOfRange,
    AlreadyOccupied,
}

/// The message shown to the user for a rejected placement.
pub open spec fn spec_message(e: PlacementError) -> Seq<char> {
    match e {
        PlacementError::OutOfRange => "Field must be in range of the grid"@,
        PlacementError::AlreadyOccupied => "Field has already been chosen. Please choose another field."@,
    }
}

impl PlacementError {
    /// The text that reports this error to the user.
    pub fn message(&self) -> (r: String)
        ensures
            r@ == spec_message(*self),
    {
        match self {
            PlacementError::OutOfRange => "Field must be in range of the grid".to_owned(),
            PlacementError::AlreadyOccupied => "Field has already been chosen. Please choose another field.".to_owned(),
        }
    }
}

/// The terminal condition of a position, computed fresh from the grid on
/// demand and never cached.
#[derive(Debug, Clone, Copy, PartialEq, Eq, Structural)]
pub enum GameStatus {
    Ongoing,
    Won(Player),
    Draw,
}

/// The 3x3 grid, stored row-major. Squares are mutated only through
/// `set_value`, so every occupation goes through the same validity checks.
pub struct Board {
    cells: [Cell; 9],
}

/// The grid of a freshly created board: all nine squares empty.
pub open spec fn empty_grid() -> Seq<Cell> {
    Seq::new(9, |i: int| Cell::Empty)
}

/// Whether (r, c) addresses a square of the 3x3 grid.
pub open spec fn in_range(r: int, c: int) -> bool {
    0 <= r < 3 && 0 <= c < 3
}

/// The square at row r, column c of a row-major grid.
pub open spec fn cell_at(g: Seq<Cell>, r: int, c: int) -> Cell {
    g[r * 3 + c]
}

/// Row r of the grid, left to right.
pub open spec fn row_seq(g: Seq<Cell>, r: int) -> Seq<Cell> {
    seq![cell_at(g, r, 0), cell_at(g, r, 1), cell_at(g, r, 2)]
}

/// Column c of the grid, top to bottom.
pub open spec fn col_seq(g: Seq<Cell>, c: int) -> Seq<Cell> {
    seq![cell_at(g, 0, c), cell_at(g, 1, c), cell_at(g, 2, c)]
}

/// The diagonal from the top-left corner to the bottom-right corner.
pub open spec fn diag_tl_br(g: Seq<Cell>) -> Seq<Cell> {
    seq![cell_at(g, 0, 0), cell_at(g, 1, 1), cell_at(g, 2, 2)]
}

/// The diagonal from the bottom-left corner to the top-right corner.
pub open spec fn diag_bl_tr(g: Seq<Cell>) -> Seq<Cell> {
    seq![cell_at(g, 2, 0), cell_at(g, 1, 1), cell_at(g, 0, 2)]
}

/// The player who occupies every square of the line, if there is one.
/// A line with an empty square or squares of both players has no winner.
pub open spec fn line_winner(line: Seq<Cell>) -> Option<Player> {
    if forall|i: int| 0 <= i < line.len() ==> line[i] == Cell::OccupiedBy(Player::ONE) {
        Some(Player::ONE)
    } else if forall|i: int| 0 <= i < line.len() ==> line[i] == Cell::OccupiedBy(Player::TWO) {
        Some(Player::TWO)
    } else {
        None
    }
}

/// The eight lines of the grid in the fixed scan order: both diagonals,
/// then the rows top to bottom, then the columns left to right.
pub open spec fn line_at(g: Seq<Cell>, k: int) -> Seq<Cell>
    recommends
        0 <= k < 8,
{
    if k == 0 {
        diag_tl_br(g)
    } else if k == 1 {
        diag_bl_tr(g)
    } else if k < 5 {
        row_seq(g, k - 2)
    } else {
        col_seq(g, k - 5)
    }
}

/// The owner of the first winning line in scan order, if any line wins.
pub open spec fn winner_of(g: Seq<Cell>) -> Option<Player> {
    if line_winner(diag_tl_br(g)) is Some {
        line_winner(diag_tl_br(g))
    } else if line_winner(diag_bl_tr(g)) is Some {
        line_winner(diag_bl_tr(g))
    } else if line_winner(row_seq(g, 0)) is Some {
        line_winner(row_seq(g, 0))
    } else if line_winner(row_seq(g, 1)) is Some {
        line_winner(row_seq(g, 1))
    } else if line_winner(row_seq(g, 2)) is Some {
        line_winner(row_seq(g, 2))
    } else if line_winner(col_seq(g, 0)) is Some {
        line_winner(col_seq(g, 0))
    } else if line_winner(col_seq(g, 1)) is Some {
        line_winner(col_seq(g, 1))
    } else if line_winner(col_seq(g, 2)) is Some {
        line_winner(col_seq(g, 2))
    } else {
        None
    }
}

/// Whether some square of the grid is still empty.
pub open spec fn has_empty(g: Seq<Cell>) -> bool {
    exists|i: int| 0 <= i < g.len() && g[i] == Cell::Empty
}

/// The status derived from a grid: a winner if a line wins, otherwise
/// ongoing while a square is free, otherwise a draw.
pub open spec fn status_of(g: Seq<Cell>) -> GameStatus {
    match winner_of(g) {
        Some(p) => GameStatus::Won(p),
        None => if has_empty(g) {
            GameStatus::Ongoing
        } else {
            GameStatus::Draw
        },
    }
}

/// The outcome of asking to place p at (r, c) on grid g.
pub open spec fn place_result(g: Seq<Cell>, p: Player, r: int, c: int) -> Result<
    (),
    PlacementError,
> {
    if !in_range(r, c) {
        Err(PlacementError::OutOfRange)
    } else if cell_at(g, r, c) != Cell::Empty {
        Err(PlacementError::AlreadyOccupied)
    } else {
        Ok(())
    }
}

/// The grid after asking to place p at (r, c): updated on success, and
/// exactly the old grid on either error.
pub open spec fn place_grid(g: Seq<Cell>, p: Player, r: int, c: int) -> Seq<Cell> {
    if place_result(g, p, r, c) is Ok {
        g.update(r * 3 + c, Cell::OccupiedBy(p))
    } else {
        g
    }
}

impl View for Board {
    type V = Seq<Cell>;

    closed spec fn view(&self) -> Seq<Cell> {
        self.cells@
    }
}

impl Default for Board {
    /// A freshly created board: every square empty.
    fn default() -> (r: Self)
        ensures
            r@ == empty_grid(),
    {
        let b = Board { cells: [Cell::Empty; 9] };
        proof {
            assert(b@ =~= empty_grid());
        }
        b
    }
}

impl Board {
    /// The number of rows of the grid.
    pub fn get_height(&self) -> (r: usize)
        ensures
            r == 3,
    {
        3
    }

    /// The number of columns of the grid.
    pub fn get_width(&self) -> (r: usize)
        ensures
            r == 3,
    {
        3
    }

    /// Places `player` on the square `field = (row, col)`. Rejects a
    /// coordinate outside the grid and a square that is already taken;
    /// on success exactly that one square changes.
    pub fn set_value(&mut self, player: Player, field: (usize, usize)) -> (r: Result<
        (),
        PlacementError,
    >)
        ensures
            r == place_result(old(self)@, player, field.0 as int, field.1 as int),
            final(self)@ == place_grid(old(self)@, player, field.0 as int, field.1 as int),
    {
        let height = self.get_height() - 1;
        let width = self.get_width() - 1;
        let (x, y) = field;
        if x > height || y > width {
            Err(PlacementError::OutOfRange)
        } else {
            let i = x * 3 + y;
            match self.cells[i] {
                Cell::OccupiedBy(_) => Err(PlacementError::AlreadyOccupied),
                Cell::Empty => {
                    self.cells[i] = Cell::OccupiedBy(player);
                    Ok(())
                },
            }
        }
    }

    /// The two diagonals, top-left to bottom-right first.
    pub fn get_diags(&self) -> (r: (Vec<Cell>, Vec<Cell>))
        ensures
            r.0@ == diag_tl_br(self@),
            r.1@ == diag_bl_tr(self@),
    {
        let tl_br = vec![self.cells[0], self.cells[4], self.cells[8]];
        let bl_tr = vec![self.cells[6], self.cells[4], self.cells[2]];
        proof {
            assert(tl_br@ =~= diag_tl_br(self@));
            assert(bl_tr@ =~= diag_bl_tr(self@));
        }
        (tl_br, bl_tr)
    }

    /// The three rows, top to bottom.
    pub fn get_rows(&self) -> (r: Vec<Vec<Cell>>)
        ensures
            r@.len() == 3,
            forall|k: int| 0 <= k < 3 ==> r@[k]@ == row_seq(self@, k),
    {
        let rows = vec![
            vec![self.cells[0], self.cells[1], self.cells[2]],
            vec![self.cells[3], self.cells[4], self.cells[5]],
            vec![self.cells[6], self.cells[7], self.cells[8]],
        ];
        proof {
            assert forall|k: int| 0 <= k < 3 implies rows@[k]@ == row_seq(self@, k) by {
                assert(rows@[0]@ =~= row_seq(self@, 0));
                assert(rows@[1]@ =~= row_seq(self@, 1));
                assert(rows@[2]@ =~= row_seq(self@, 2));
            }
        }
        rows
    }

    /// The three columns, left to right.
    pub fn get_cols(&self) -> (r: Vec<Vec<Cell>>)
        ensures
            r@.len() == 3,
            forall|k: int| 0 <= k < 3 ==> r@[k]@ == col_seq(self@, k),
    {
        let cols = vec![
            vec![self.cells[0], self.cells[3], self.cells[6]],
            vec![self.cells[1], self.cells[4], self.cells[7]],
            vec![self.cells[2], self.cells[5], self.cells[8]],
        ];
        proof {
            assert forall|k: int| 0 <= k < 3 implies cols@[k]@ == col_seq(self@, k) by {
                assert(cols@[0]@ =~= col_seq(self@, 0));
                assert(cols@[1]@ =~= col_seq(self@, 1));
                assert(cols@[2]@ =~= col_seq(self@, 2));
            }
        }
        cols
    }

    /// The grid row by row, for display by a caller: the board itself
    /// never renders or prints.
    pub fn render_rows(&self) -> (r: Vec<Vec<Cell>>)
        ensures
            r@.len() == 3,
            forall|k: int| 0 <= k < 3 ==> r@[k]@ == row_seq(self@, k),
    {
        self.get_rows()
    }

    /// The owner of the first winning line, scanning the two diagonals,
    /// then the rows, then the columns.
    pub fn get_winner(&self) -> (r: Option<Player>)
        ensures
            r == winner_of(self@),
    {
        let diags = self.get_diags();
        if let Some(winner) = check_for_winner(&diags.0) {
            return Some(winner);
        }
        if let Some(winner) = check_for_winner(&diags.1) {
            return Some(winner);
        }
        let rows = self.get_rows();
        let mut i: usize = 0;
        while i < 3
            invariant
                i <= 3,
                rows@.len() == 3,
                forall|k: int| 0 <= k < 3 ==> rows@[k]@ == row_seq(self@, k),
                forall|k: int| 0 <= k < i ==> line_winner(row_seq(self@, k)) is None,
                line_winner(diag_tl_br(self@)) is None,
                line_winner(diag_bl_tr(self@)) is None,
            decreases 3 - i,
        {
            if let Some(winner) = check_for_winner(&rows[i]) {
                return Some(winner);
            }
            i += 1;
        }
        let cols = self.get_cols();
        let mut j: usize = 0;
        while j < 3
            invariant
                j <= 3,
                cols@.len() == 3,
                forall|k: int| 0 <= k < 3 ==> cols@[k]@ == col_seq(self@, k),
                forall|k: int| 0 <= k < j ==> line_winner(col_seq(self@, k)) is None,
                forall|k: int| 0 <= k < 3 ==> line_winner(row_seq(self@, k)) is None,
                line_winner(diag_tl_br(self@)) is None,
                line_winner(diag_bl_tr(self@)) is None,
            decreases 3 - j,
        {
            if let Some(winner) = check_for_winner(&cols[j]) {
                return Some(winner);
            }
            j += 1;
        }
        None
    }

    /// The status of the position: the winner of the first winning line,
    /// otherwise ongoing while a square is empty, otherwise a draw.
    pub fn status(&self) -> (r: GameStatus)
        ensures
            r == status_of(self@),
    {
        match self.get_winner() {
            Some(p) => GameStatus::Won(p),
            None => {
                let mut i: usize = 0;
                while i < 9
                    invariant
                        i <= 9,
                        winner_of(self@) is None,
                        forall|k: int| 0 <= k < i ==> self@[k] != Cell::Empty,
                    decreases 9 - i,
                {
                    match self.cells[i] {
                        Cell::Empty => {
                            proof {
                                assert(self@[i as int] == Cell::Empty);
                            }
                            return GameStatus::Ongoing;
                        },
                        Cell::OccupiedBy(_) => {},
                    }
                    i += 1;
                }
                GameStatus::Draw
            },
        }
    }
}

/// What a square shows in a rendered line of the grid.
pub open spec fn cell_glyph(c: Cell) -> Seq<char> {
    match c {
        Cell::Empty => "   "@,
        Cell::OccupiedBy(p) => if p == Player::ONE {
            " X "@
        } else {
            " O "@
        },
    }
}

/// The text of one rendered line: the three squares joined by bars.
pub open spec fn line_text(line: Seq<Cell>) -> Seq<char>
    recommends
        line.len() == 3,
{
    cell_glyph(line[0]) + "|"@ + cell_glyph(line[1]) + "|"@ + cell_glyph(line[2])
}

/// The text shown for one square.
fn cell_text(c: Cell) -> (r: &'static str)
    ensures
        r@ == cell_glyph(c),
{
    match c {
        Cell::Empty => "   ",
        Cell::OccupiedBy(Player::ONE) => " X ",
        Cell::OccupiedBy(Player::TWO) => " O ",
    }
}

/// Renders one line of the grid as text, squares joined by bars.
pub fn gen_line(values: &[Cell; 3]) -> (r: String)
    ensures
        r@ == line_text(values@),
{
    let mut line = cell_text(values[0]).to_owned();
    line.append("|");
    line.append(cell_text(values[1]));
    line.append("|");
    line.append(cell_text(values[2]));
    line
}

/// Whether a separator line belongs after this row: after every row but
/// the last one.
pub fn should_print_seperator(line_num: usize, board_height: usize) -> (r: bool)
    requires
        board_height >= 1,
    ensures
        r == (line_num < board_height - 1),
{
    line_num < board_height - 1
}

/// The winner of one line of squares: the player who occupies every one
/// of them, if either player does.
pub fn check_for_winner(cells: &Vec<Cell>) -> (r: Option<Player>)
    ensures
        r == line_winner(cells@),
{
    let mut all_one = true;
    let mut all_two = true;
    let mut i: usize = 0;
    while i < cells.len()
        invariant
            i <= cells@.len(),
            all_one == (forall|j: int| 0 <= j < i ==> cells@[j] == Cell::OccupiedBy(Player::ONE)),
            all_two == (forall|j: int| 0 <= j < i ==> cells@[j] == Cell::OccupiedBy(Player::TWO)),
        decreases cells@.len() - i,
    {
        let c = cells[i];
        all_one = all_one && c == Cell::OccupiedBy(Player::ONE);
        all_two = all_two && c == Cell::OccupiedBy(Player::TWO);
        i += 1;
    }
    if all_one {
        Some(Player::ONE)
    } else if all_two {
        Some(Player::TWO)
    } else {
        None
    }
}

/// Placing at a coordinate outside the grid is rejected as out of range
/// and leaves the grid unchanged, whatever the grid holds.
pub proof fn lemma_place_out_of_range(g: Seq<Cell>, p: Player, r: int, c: int)
    requires
        r >= 3 || c >= 3,
    ensures
        place_result(g, p, r, c) == Err::<(), PlacementError>(PlacementError::OutOfRange),
        place_grid(g, p, r, c) == g,
{
}

/// After a successful placement, placing again at the same square is
/// rejected as already occupied, the grid stays as it was, and the square
/// keeps its original occupant, whoever asks second.
pub proof fn lemma_second_place_rejected(g: Seq<Cell>, p1: Player, p2: Player, r: int, c: int)
    requires
        g.len() == 9,
        place_result(g, p1, r, c) is Ok,
    ensures
        place_result(place_grid(g, p1, r, c), p2, r, c) == Err::<(), PlacementError>(
            PlacementError::AlreadyOccupied,
        ),
        place_grid(place_grid(g, p1, r, c), p2, r, c) == place_grid(g, p1, r, c),
        cell_at(place_grid(g, p1, r, c), r, c) == Cell::OccupiedBy(p1),
{
}

/// A grid whose only fully same-player line is owned by p has status
/// Won(p): the scan order cannot pick any other answer.
pub proof fn lemma_single_winning_line(g: Seq<Cell>, p: Player, l: int)
    requires
        g.len() == 9,
        0 <= l < 8,
        line_winner(line_at(g, l)) == Some(p),
        forall|k: int| 0 <= k < 8 && k != l ==> line_winner(line_at(g, k)) is None,
    ensures
        status_of(g) == GameStatus::Won(p),
{
    assert(line_at(g, 0) == diag_tl_br(g));
    assert(line_at(g, 1) == diag_bl_tr(g));
    assert(line_at(g, 2) == row_seq(g, 0));
    assert(line_at(g, 3) == row_seq(g, 1));
    assert(line_at(g, 4) == row_seq(g, 2));
    assert(line_at(g, 5) == col_seq(g, 0));
    assert(line_at(g, 6) == col_seq(g, 1));
    assert(line_at(g, 7) == col_seq(g, 2));
}

/// If none of the eight lines is fully same-player, the scan finds no
/// winner.
pub proof fn lemma_no_line_wins(g: Seq<Cell>)
    requires
        forall|k: int| 0 <= k < 8 ==> line_winner(line_at(g, k)) is None,
    ensures
        winner_of(g) is None,
{
    assert(line_winner(diag_tl_br(g)) is None) by {
        assert(line_winner(line_at(g, 0)) is None);
    }
    assert(line_winner(diag_bl_tr(g)) is None) by {
        assert(line_winner(line_at(g, 1)) is None);
    }
    assert forall|r: int| 0 <= r < 3 implies line_winner(row_seq(g, r)) is None by {
        assert(line_winner(line_at(g, r + 2)) is None);
    }
    assert forall|c: int| 0 <= c < 3 implies line_winner(col_seq(g, c)) is None by {
        assert(line_winner(line_at(g, c + 5)) is None);
    }
}

/// A grid with every square occupied and no fully same-player line has
/// status Draw.
pub proof fn lemma_full_board_draw(g: Seq<Cell>)
    requires
        g.len() == 9,
        forall|i: int| 0 <= i < 9 ==> g[i] != Cell::Empty,
        forall|k: int| 0 <= k < 8 ==> line_winner(line_at(g, k)) is None,
    ensures
        status_of(g) == GameStatus::Draw,
{
    lemma_no_line_wins(g);
}

/// A grid with at least one empty square and no fully same-player line
/// has status Ongoing.
pub proof fn lemma_open_board_ongoing(g: Seq<Cell>)
    requires
        g.len() == 9,
        has_empty(g),
        forall|k: int| 0 <= k < 8 ==> line_winner(line_at(g, k)) is None,
    ensures
        status_of(g) == GameStatus::Ongoing,
{
    lemma_no_line_wins(g);
}

} // verus!

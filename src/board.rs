use vstd::prelude::*;

verus! {

/// One of the two players.
#[derive(Copy, Clone, Debug, PartialEq, Eq, Structural)]
pub enum Player {
    X,
    O,
}

/// A cell of the grid: empty, or holding one player's mark.
pub type Cell = Option<Player>;

/// The 3x3 grid, row-major.
#[derive(Copy, Clone, Debug)]
pub struct Board(pub [[Cell; 3]; 3]);

/// The mathematical grid: three rows of three cells.
pub type Grid = Seq<Seq<Cell>>;

/// A board coordinate; valid when both parts are below 3.
#[derive(Copy, Clone, Debug, PartialEq, Eq, Structural)]
pub struct Move {
    pub row: usize,
    pub col: usize,
}

impl Move {
    pub open spec fn valid(self) -> bool {
        self.row < 3 && self.col < 3
    }
}

/// The other player.
pub open spec fn other(p: Player) -> Player {
    match p {
        Player::X => Player::O,
        Player::O => Player::X,
    }
}

/// The grid with no marks.
pub open spec fn empty_grid() -> Grid {
    Seq::new(3, |r: int| Seq::new(3, |c: int| None))
}

/// A 3x3 grid.
pub open spec fn grid_wf(g: Grid) -> bool {
    g.len() == 3 && forall|r: int| 0 <= r < 3 ==> (#[trigger] g[r]).len() == 3
}

/// The content of cell `(r, c)`.
pub open spec fn cell(g: Grid, r: int, c: int) -> Cell {
    g[r][c]
}

/// The grid with cell `(r, c)` replaced by `v`.
pub open spec fn with_cell(g: Grid, r: int, c: int, v: Cell) -> Grid {
    g.update(r, g[r].update(c, v))
}

pub open spec fn grid_is_empty(g: Grid) -> bool {
    forall|r: int, c: int| 0 <= r < 3 && 0 <= c < 3 ==> #[trigger] cell(g, r, c) is None
}

/// The coordinates of the `i`-th cell of line `k`: rows are lines 0 to 2,
/// columns 3 to 5, the main diagonal 6 and the anti-diagonal 7.
pub open spec fn line_at(k: int, i: int) -> (int, int) {
    if k < 3 {
        (k, i)
    } else if k < 6 {
        (i, k - 3)
    } else if k == 6 {
        (i, i)
    } else {
        (i, 2 - i)
    }
}

/// Whether `(r, c)` lies on line `k`.
pub open spec fn on_line(k: int, r: int, c: int) -> bool {
    exists|i: int| 0 <= i < 3 && #[trigger] line_at(k, i) == (r, c)
}

/// Line `k` holds player `p` in all three of its cells.
pub open spec fn line_complete(g: Grid, k: int, p: Player) -> bool {
    forall|i: int| 0 <= i < 3 ==> cell(g, #[trigger] line_at(k, i).0, line_at(k, i).1) == Some(p)
}

/// Some line through `(r, c)` is complete for `p`.
pub open spec fn wins_through(g: Grid, r: int, c: int, p: Player) -> bool {
    exists|k: int| 0 <= k < 8 && on_line(k, r, c) && #[trigger] line_complete(g, k, p)
}

/// What the win check reports for a last move at `(r, c)`.
pub open spec fn winner_of(g: Grid, r: int, c: int) -> Option<Player> {
    if wins_through(g, r, c, Player::X) {
        Some(Player::X)
    } else if wins_through(g, r, c, Player::O) {
        Some(Player::O)
    } else {
        None
    }
}

impl View for Board {
    type V = Grid;

    open spec fn view(&self) -> Grid {
        Seq::new(3, |r: int| self.0@[r]@)
    }
}

impl Board {
    /// An empty board.
    pub fn new() -> (b: Board)
        ensures
            b@ == empty_grid(),
    {
        let b = Board([[None; 3]; 3]);
        assert(b@ =~~= empty_grid());
        b
    }

    /// The content of cell `(row, col)`.
    pub fn get(&self, row: usize, col: usize) -> (r: Cell)
        requires
            row < 3,
            col < 3,
        ensures
            r == cell(self@, row as int, col as int),
    {
        self.0[row][col]
    }

    /// Writes `v` into cell `(row, col)`.
    pub fn set(&mut self, row: usize, col: usize, v: Cell)
        requires
            row < 3,
            col < 3,
        ensures
            final(self)@ == with_cell(old(self)@, row as int, col as int, v),
    {
        self.0[row][col] = v;
        assert(self@ =~~= with_cell(old(self)@, row as int, col as int, v));
    }

    /// Whether no cell holds a mark.
    pub fn is_clear(&self) -> (r: bool)
        ensures
            r == grid_is_empty(self@),
    {
        let mut row: usize = 0;
        while row < 3
            invariant
                0 <= row <= 3,
                forall|r: int, c: int| 0 <= r < row && 0 <= c < 3 ==> #[trigger] cell(self@, r, c) is None,
            decreases 3 - row,
        {
            let mut col: usize = 0;
            while col < 3
                invariant
                    0 <= row < 3,
                    0 <= col <= 3,
                    forall|r: int, c: int|
                        0 <= r < row && 0 <= c < 3 ==> #[trigger] cell(self@, r, c) is None,
                    forall|c: int| 0 <= c < col ==> #[trigger] cell(self@, row as int, c) is None,
                decreases 3 - col,
            {
                if self.get(row, col).is_some() {
                    return false;
                }
                col += 1;
            }
            row += 1;
        }
        true
    }
}

/// The other player.
pub fn opponent_of(p: Player) -> (r: Player)
    ensures
        r == other(p),
{
    match p {
        Player::X => Player::O,
        Player::O => Player::X,
    }
}

/// The lines through `(r, c)` are its row, its column, and the diagonals
/// it lies on.
pub proof fn lemma_lines_through(k: int, r: int, c: int)
    requires
        0 <= k < 8,
        0 <= r < 3,
        0 <= c < 3,
        on_line(k, r, c),
    ensures
        k == r || k == 3 + c || (k == 6 && r == c) || (k == 7 && r + c == 2),
{
    let i = choose|i: int| 0 <= i < 3 && #[trigger] line_at(k, i) == (r, c);
}

/// Whether cell `(r, c)` holds `p`.
fn holds(board: &Board, r: usize, c: usize, p: Player) -> (b: bool)
    requires
        r < 3,
        c < 3,
    ensures
        b == (cell(board@, r as int, c as int) == Some(p)),
{
    match board.get(r, c) {
        Some(q) => q == p,
        None => false,
    }
}

/// The player who completed a line with the move at `last_move`, if any.
/// Only the lines through that cell are inspected: its row, its column and
/// the diagonals it lies on (both of them for the centre).
pub fn winner(board: &Board, last_move: Move) -> (w: Option<Player>)
    requires
        last_move.valid(),
    ensures
        w == winner_of(board@, last_move.row as int, last_move.col as int),
{
    let r = last_move.row;
    let c = last_move.col;
    let ghost g = board@;
    let ghost (ri, ci) = (r as int, c as int);
    let p = match board.get(r, c) {
        Some(p) => p,
        None => {
            assert forall|k: int, q: Player| 0 <= k < 8 && on_line(k, ri, ci) implies !#[trigger] line_complete(g, k, q) by {
                let i = choose|i: int| 0 <= i < 3 && #[trigger] line_at(k, i) == (ri, ci);
            }
            return None;
        },
    };
    let row_win = holds(board, r, 0, p) && holds(board, r, 1, p) && holds(board, r, 2, p);
    let col_win = holds(board, 0, c, p) && holds(board, 1, c, p) && holds(board, 2, c, p);
    let diag_win = r == c && holds(board, 0, 0, p) && holds(board, 1, 1, p) && holds(board, 2, 2, p);
    let anti_win = r + c == 2 && holds(board, 0, 2, p) && holds(board, 1, 1, p) && holds(board, 2, 0, p);
    if row_win || col_win || diag_win || anti_win {
        proof {
            let k = if row_win { ri } else if col_win { 3 + ci } else if diag_win { 6int } else { 7int };
            let i = if k < 3 { ci } else { ri };
            assert(line_at(k, i) == (ri, ci));
            assert(line_complete(g, k, p));
        }
        Some(p)
    } else {
        proof {
            assert forall|k: int, q: Player| 0 <= k < 8 && on_line(k, ri, ci) implies !#[trigger] line_complete(g, k, q) by {
                lemma_lines_through(k, ri, ci);
                let j = choose|j: int| 0 <= j < 3 && #[trigger] line_at(k, j) == (ri, ci);
                if line_complete(g, k, q) {
                    assert(cell(g, line_at(k, j).0, line_at(k, j).1) == Some(q));
                    assert(q == p);
                    assert(cell(g, line_at(k, 0).0, line_at(k, 0).1) == Some(q));
                    assert(cell(g, line_at(k, 1).0, line_at(k, 1).1) == Some(q));
                    assert(cell(g, line_at(k, 2).0, line_at(k, 2).1) == Some(q));
                }
            }
        }
        None
    }
}

/// A completed line through the last move makes its owner the winner, and
/// with no completed line through the last move there is no winner.
pub proof fn lemma_winner_owns_line(g: Grid, r: int, c: int)
    requires
        0 <= r < 3,
        0 <= c < 3,
    ensures
        forall|k: int, p: Player|
            0 <= k < 8 && on_line(k, r, c) && #[trigger] line_complete(g, k, p) ==> winner_of(g, r, c) == Some(p),
        (forall|k: int, p: Player| 0 <= k < 8 && on_line(k, r, c) ==> !#[trigger] line_complete(g, k, p))
            ==> winner_of(g, r, c) is None,
{
    assert forall|k: int, p: Player|
        0 <= k < 8 && on_line(k, r, c) && #[trigger] line_complete(g, k, p) implies winner_of(g, r, c) == Some(p) by {
        let i = choose|i: int| 0 <= i < 3 && #[trigger] line_at(k, i) == (r, c);
        assert(cell(g, line_at(k, i).0, line_at(k, i).1) == Some(p));
        if wins_through(g, r, c, other(p)) {
            let k2 = choose|k2: int| 0 <= k2 < 8 && on_line(k2, r, c) && #[trigger] line_complete(g, k2, other(p));
            let i2 = choose|i2: int| 0 <= i2 < 3 && #[trigger] line_at(k2, i2) == (r, c);
            assert(cell(g, line_at(k2, i2).0, line_at(k2, i2).1) == Some(other(p)));
        }
    }
}

/// On an empty grid no coordinate has a winner.
pub proof fn lemma_empty_grid_has_no_winner(r: int, c: int)
    requires
        0 <= r < 3,
        0 <= c < 3,
    ensures
        winner_of(empty_grid(), r, c) is None,
{
    let g = empty_grid();
    assert forall|k: int, p: Player| 0 <= k < 8 implies !#[trigger] line_complete(g, k, p) by {
        assert(cell(g, line_at(k, 0).0, line_at(k, 0).1) is None);
    }
}

} // verus!

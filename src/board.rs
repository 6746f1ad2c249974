use vstd::prelude::*;

use crate::moves::Move;

verus! {

/// One of the two players, and the mark that player puts on the grid.
#[derive(Clone, Copy, Debug, PartialEq, Eq, Structural)]
pub enum Player {
    X,
    O,
}

impl Player {
    /// The player who moves after `self`.
    pub open spec fn spec_other(self) -> Player {
        match self {
            Player::X => Player::O,
            Player::O => Player::X,
        }
    }

    /// The character that shows this player's mark.
    pub open spec fn spec_glyph(self) -> char {
        match self {
            Player::X => 'X',
            Player::O => 'O',
        }
    }

    pub fn other(&self) -> (r: Player)
        ensures
            r == self.spec_other(),
    {
        match self {
            Player::X => Player::O,
            Player::O => Player::X,
        }
    }

    pub fn glyph(&self) -> (r: char)
        ensures
            r == self.spec_glyph(),
    {
        match self {
            Player::X => 'X',
            Player::O => 'O',
        }
    }
}

impl Default for Player {
    /// `X` opens every game.
    fn default() -> (r: Player)
        ensures
            r == Player::X,
    {
        Player::X
    }
}

/// The contents of one cell: a mark, or `None` while the cell is free.
pub type Cell = Option<Player>;

/// A grid seen as its rows (indexed by `y`), each a sequence of cells
/// (indexed by `x`).
pub type Grid = Seq<Seq<Cell>>;

/// The cell of `g` at column `x` and row `y`; `None` outside the grid.
pub open spec fn cell_of(g: Grid, x: int, y: int) -> Cell {
    if 0 <= y < g.len() && 0 <= x < g[y].len() {
        g[y][x]
    } else {
        None
    }
}

/// `g` has three rows of three cells.
pub open spec fn is_square(g: Grid) -> bool {
    g.len() == 3 && forall|y: int| 0 <= y < 3 ==> #[trigger] g[y].len() == 3
}

/// The grid with no mark on it.
pub open spec fn empty_grid() -> Grid {
    seq![seq![None, None, None], seq![None, None, None], seq![None, None, None]]
}

/// `g` with `p` written at column `x`, row `y`.
pub open spec fn grid_with(g: Grid, x: int, y: int, p: Player) -> Grid {
    g.update(y, g[y].update(x, Some(p)))
}

/// Each player's turn is followed by the other's, and two turns on it is
/// that player's again.
pub proof fn turns_alternate(p: Player)
    ensures
        p.spec_other() != p,
        p.spec_other().spec_other() == p,
{
}

/// The character that shows a cell: its mark, or a space.
pub open spec fn cell_glyph(c: Cell) -> char {
    match c {
        Some(p) => p.spec_glyph(),
        None => ' ',
    }
}

/// Row `y` of `g` as text: its three cells split by `|`, then a newline.
pub open spec fn row_text(g: Grid, y: int) -> Seq<char> {
    seq![
        cell_glyph(cell_of(g, 0, y)),
        '|',
        cell_glyph(cell_of(g, 1, y)),
        '|',
        cell_glyph(cell_of(g, 2, y)),
        '\n',
    ]
}

/// The line drawn between two rows.
pub open spec fn rule_text() -> Seq<char> {
    seq!['-', '+', '-', '+', '-', '\n']
}

/// The whole grid as text: the rows, top first, with a rule between two rows.
pub open spec fn grid_text(g: Grid) -> Seq<char> {
    row_text(g, 0) + rule_text() + row_text(g, 1) + rule_text() + row_text(g, 2)
}

/// Every cell of a fresh board is free.
pub proof fn fresh_board_is_empty(x: int, y: int)
    requires
        0 <= x < 3,
        0 <= y < 3,
    ensures
        cell_of(empty_grid(), x, y) is None,
{
}

/// After `p` is written at a cell, that cell reads `p`, whatever it held
/// before, and every other cell reads as it did.
pub proof fn placed_mark_reads_back(g: Grid, x: int, y: int, p: Player)
    requires
        is_square(g),
        0 <= x < 3,
        0 <= y < 3,
    ensures
        cell_of(grid_with(g, x, y, p), x, y) == Some(p),
        forall|a: int, b: int|
            (a != x || b != y) ==> #[trigger] cell_of(grid_with(g, x, y, p), a, b)
                == cell_of(g, a, b),
{
}

/// The 3x3 board.
#[derive(Clone, Copy, Debug)]
pub struct Board {
    board: [[Cell; 3]; 3],
}

impl View for Board {
    type V = Grid;

    closed spec fn view(&self) -> Grid {
        seq![self.board@[0]@, self.board@[1]@, self.board@[2]@]
    }
}

impl Board {
    /// Every board is three rows of three cells.
    pub proof fn lemma_square(&self)
        ensures
            is_square(self@),
    {
    }

    /// The cell at column `x`, row `y`; `None` outside the board.
    pub open spec fn cell(&self, x: int, y: int) -> Cell {
        cell_of(self@, x, y)
    }

    /// A board with every cell free.
    pub fn new() -> (r: Board)
        ensures
            r@ == empty_grid(),
    {
        let r = Board { board: [[None, None, None], [None, None, None], [None, None, None]] };
        assert(r@ =~= empty_grid());
        r
    }

    pub fn is_empty(&self, x: i32, y: i32) -> (r: bool)
        requires
            0 <= x < 3,
            0 <= y < 3,
        ensures
            r == (self.cell(x as int, y as int) is None),
    {
        self.get(x as usize, y as usize).is_none()
    }

    pub fn get(&self, x: usize, y: usize) -> (r: Option<Player>)
        ensures
            r == self.cell(x as int, y as int),
    {
        if y < 3 && x < 3 {
            self.board[y][x]
        } else {
            None
        }
    }

    fn push_glyph(&self, out: &mut String, x: usize, y: usize)
        requires
            x < 3,
            y < 3,
        ensures
            final(out)@ == old(out)@.push(cell_glyph(self.cell(x as int, y as int))),
    {
        proof {
            reveal_strlit("X");
            reveal_strlit("O");
            reveal_strlit(" ");
        }
        match self.get(x, y) {
            Some(Player::X) => out.append("X"),
            Some(Player::O) => out.append("O"),
            None => out.append(" "),
        }
        assert(out@ =~= old(out)@.push(cell_glyph(self.cell(x as int, y as int))));
    }

    fn push_row(&self, out: &mut String, y: usize)
        requires
            y < 3,
        ensures
            final(out)@ == old(out)@ + row_text(self@, y as int),
    {
        proof {
            reveal_strlit("|");
            reveal_strlit("\n");
        }
        self.push_glyph(out, 0, y);
        out.append("|");
        self.push_glyph(out, 1, y);
        out.append("|");
        self.push_glyph(out, 2, y);
        out.append("\n");
        assert(out@ =~= old(out)@ + row_text(self@, y as int));
    }

    fn push_rule(out: &mut String)
        ensures
            final(out)@ == old(out)@ + rule_text(),
    {
        proof {
            reveal_strlit("-+-+-\n");
        }
        out.append("-+-+-\n");
        assert(out@ =~= old(out)@ + rule_text());
    }

    /// The board as text, one line per row, with a rule between rows.
    pub fn render(&self) -> (r: String)
        ensures
            r@ == grid_text(self@),
    {
        let mut out = String::new();
        self.push_row(&mut out, 0);
        Board::push_rule(&mut out);
        self.push_row(&mut out, 1);
        Board::push_rule(&mut out);
        self.push_row(&mut out, 2);
        assert(out@ =~= grid_text(self@));
        out
    }

    /// Writes `p` into the cell that `m` targets, whatever it held.
    pub fn place(&mut self, p: Player, m: &Move)
        requires
            m.wf(),
        ensures
            final(self)@ == grid_with(old(self)@, m.0 as int, m.1 as int, p),
    {
        let x = m.0 as usize;
        let y = m.1 as usize;
        let mut row = self.board[y];
        row[x] = Some(p);
        self.board[y] = row;
        assert(self@ =~= grid_with(old(self)@, m.0 as int, m.1 as int, p));
    }
}

impl Default for Board {
    fn default() -> (r: Board)
        ensures
            r@ == empty_grid(),
    {
        Board::new()
    }
}

} // verus!

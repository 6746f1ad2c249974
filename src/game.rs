use vstd::prelude::*;

use crate::board::{cell_of, empty_grid, grid_text, grid_with, Board, Grid, Player};
use crate::moves::Move;

verus! {

/// The cell that is a move's target is already taken.
#[derive(Clone, Copy, Debug, PartialEq, Eq, Structural)]
pub struct InvalidMove;

/// Column and row of cell `i` (0, 1 or 2) of winning line `k`: the rows
/// (`k` from 0 to 2), the columns (3 to 5), then the diagonal from the top
/// left (6) and the one from the top right (7).
pub open spec fn line_cell(k: int, i: int) -> (int, int) {
    if k < 3 {
        (i, k)
    } else if k < 6 {
        (k - 3, i)
    } else if k == 6 {
        (i, i)
    } else {
        (2 - i, i)
    }
}

/// The mark of `g` at cell `i` of line `k`.
pub open spec fn line_mark(g: Grid, k: int, i: int) -> Option<Player> {
    cell_of(g, line_cell(k, i).0, line_cell(k, i).1)
}

/// The player who holds all three cells of line `k` of `g`, if one does.
pub open spec fn line_owner(g: Grid, k: int) -> Option<Player> {
    let a = line_mark(g, k, 0);
    if a is Some && line_mark(g, k, 1) == a && line_mark(g, k, 2) == a {
        a
    } else {
        None
    }
}

/// The owner of the first line, from line `k` on, that some player holds.
pub open spec fn first_owner(g: Grid, k: int) -> Option<Player>
    decreases 8 - k,
{
    if k >= 8 || k < 0 {
        None
    } else if line_owner(g, k) is Some {
        line_owner(g, k)
    } else {
        first_owner(g, k + 1)
    }
}

/// The winner of `g`: the owner of the first line that a player holds whole.
pub open spec fn winner_of(g: Grid) -> Option<Player> {
    first_owner(g, 0)
}

/// No line from `k` on is held whole exactly when no owner is found from `k` on.
proof fn lemma_first_owner_none(g: Grid, k: int)
    requires
        0 <= k <= 8,
    ensures
        first_owner(g, k) is None <==> forall|j: int| k <= j < 8 ==> #[trigger] line_owner(g, j) is None,
    decreases 8 - k,
{
    if k < 8 {
        lemma_first_owner_none(g, k + 1);
    }
}

/// The first line from `k` on that is held whole decides the owner found
/// from `k` on.
proof fn lemma_first_owner_some(g: Grid, k: int, w: int)
    requires
        0 <= k <= w < 8,
        line_owner(g, w) is Some,
        forall|j: int| k <= j < w ==> #[trigger] line_owner(g, j) is None,
    ensures
        first_owner(g, k) == line_owner(g, w),
    decreases w - k,
{
    if k < w {
        lemma_first_owner_some(g, k + 1, w);
    }
}

/// A grid has no winner exactly when none of its eight lines is held whole
/// by one player.
pub proof fn no_full_line_no_winner(g: Grid)
    ensures
        winner_of(g) is None <==> forall|k: int| 0 <= k < 8 ==> #[trigger] line_owner(g, k) is None,
{
    lemma_first_owner_none(g, 0);
}

/// The empty board has no winner.
pub proof fn empty_board_has_no_winner()
    ensures
        winner_of(empty_grid()) is None,
{
    let g = empty_grid();
    assert forall|k: int| 0 <= k < 8 implies #[trigger] line_owner(g, k) is None by {
        assert(line_mark(g, k, 0) is None);
    }
    no_full_line_no_winner(g);
}

/// Where `p` holds all three cells of line `k`, and no line before `k` is
/// held whole by the other player, `p` wins.
pub proof fn full_line_wins(g: Grid, k: int, p: Player)
    requires
        0 <= k < 8,
        forall|i: int| 0 <= i < 3 ==> #[trigger] line_mark(g, k, i) == Some(p),
        forall|j: int| 0 <= j < k ==> #[trigger] line_owner(g, j) != Some(p.spec_other()),
    ensures
        winner_of(g) == Some(p),
{
    assert(line_mark(g, k, 0) == Some(p));
    assert(line_mark(g, k, 1) == Some(p));
    assert(line_mark(g, k, 2) == Some(p));
    assert(line_owner(g, k) == Some(p));
    if exists|j: int| 0 <= j < k && #[trigger] line_owner(g, j) is Some {
        let w = choose|w: int| 0 <= w < k && #[trigger] line_owner(g, w) is Some && forall|j: int|
            0 <= j < w ==> #[trigger] line_owner(g, j) is None;
        lemma_first_owner_some(g, 0, w);
    } else {
        lemma_first_owner_some(g, 0, k);
    }
}

/// Column and row of cell `i` of line `k`.
fn line_coords(k: usize, i: usize) -> (r: (usize, usize))
    requires
        k < 8,
        i < 3,
    ensures
        r.0 as int == line_cell(k as int, i as int).0,
        r.1 as int == line_cell(k as int, i as int).1,
        r.0 < 3,
        r.1 < 3,
{
    if k < 3 {
        (i, k)
    } else if k < 6 {
        (k - 3, i)
    } else if k == 6 {
        (i, i)
    } else {
        (2 - i, i)
    }
}

/// A game in play: whose turn it is, and the board.
#[derive(Clone, Copy, Debug)]
pub struct Game {
    turn: Player,
    board: Board,
}

impl Game {
    /// The player who moves next.
    pub closed spec fn spec_turn(&self) -> Player {
        self.turn
    }

    /// The board of the game.
    pub closed spec fn spec_board(&self) -> Board {
        self.board
    }

    /// A fresh game: an empty board, and `X` to move.
    pub fn new() -> (r: Game)
        ensures
            r.spec_turn() == Player::X,
            r.spec_board()@ == empty_grid(),
    {
        Game { turn: Player::X, board: Board::new() }
    }

    pub fn turn(&self) -> (r: Player)
        ensures
            r == self.spec_turn(),
    {
        self.turn
    }

    pub fn board(&self) -> (r: Board)
        ensures
            r == self.spec_board(),
    {
        self.board
    }

    /// The board as text.
    pub fn render(&self) -> (r: String)
        ensures
            r@ == grid_text(self.spec_board()@),
    {
        self.board.render()
    }

    /// Whether the cell that `m` targets is still free.
    pub fn is_legal(&self, m: &Move) -> (r: bool)
        requires
            m.wf(),
        ensures
            r == (self.spec_board().cell(m.0 as int, m.1 as int) is None),
    {
        self.board.is_empty(m.0, m.1)
    }

    /// Puts the mark of the player to move on the cell that `m` targets and
    /// hands the turn to the other player; fails, changing nothing, where that
    /// cell is taken.
    pub fn make_move(&mut self, m: &Move) -> (r: Result<(), InvalidMove>)
        requires
            m.wf(),
        ensures
            old(self).spec_board().cell(m.0 as int, m.1 as int) is Some ==> {
                &&& r == Err::<(), InvalidMove>(InvalidMove)
                &&& *final(self) == *old(self)
            },
            old(self).spec_board().cell(m.0 as int, m.1 as int) is None ==> {
                &&& r is Ok
                &&& final(self).spec_board()@ == grid_with(
                    old(self).spec_board()@,
                    m.0 as int,
                    m.1 as int,
                    old(self).spec_turn(),
                )
                &&& final(self).spec_turn() == old(self).spec_turn().spec_other()
            },
    {
        if !self.is_legal(m) {
            return Err(InvalidMove);
        }
        self.board.place(self.turn, m);
        self.turn = self.turn.other();
        Ok(())
    }

    /// The player who holds a whole row, column or diagonal: the first such
    /// line found, rows first, then columns, then diagonals.
    pub fn winner(&self) -> (r: Option<Player>)
        ensures
            r == winner_of(self.spec_board()@),
    {
        let ghost g = self.board@;
        let mut k: usize = 0;
        while k < 8
            invariant
                k <= 8,
                g == self.board@,
                first_owner(g, 0) == first_owner(g, k as int),
            decreases 8 - k,
        {
            let (x0, y0) = line_coords(k, 0);
            let (x1, y1) = line_coords(k, 1);
            let (x2, y2) = line_coords(k, 2);
            let a = self.board.get(x0, y0);
            let b = self.board.get(x1, y1);
            let c = self.board.get(x2, y2);
            if a.is_some() && b == a && c == a {
                return a;
            }
            k = k + 1;
        }
        None
    }
}

impl Default for Game {
    fn default() -> (r: Game)
        ensures
            r.spec_turn() == Player::X,
            r.spec_board()@ == empty_grid(),
    {
        Game::new()
    }
}

} // verus!

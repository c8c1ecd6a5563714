//! Grid state, lifecycle, and gravity-based placement.
//!
//! The grid is a row-major sequence of 30 cells: 6 columns by 5 rows.
//! Column 0, column 5 and row 4 are walls for the lifetime of a board; the
//! 4x4 interior (rows 0 to 3, columns 1 to 4) is playable.

use crate::render::render_spec;
use crate::rng::seeded_generator;
use crate::text::str_eq;
use vstd::prelude::*;

verus! {

/// One cell of the grid: empty interior, border wall, or one of the two
/// teams' tokens.
#[derive(Copy, Clone, Debug, PartialEq, Eq, Structural)]
pub enum Piece {
    Empty,
    Wall,
    Cookie,
    Milk,
}

impl Default for Piece {
    fn default() -> (r: Piece)
        ensures
            r == Piece::Empty,
    {
        Piece::Empty
    }
}

/// One of the two competing teams.
#[derive(Copy, Clone, Debug, PartialEq, Eq, Structural)]
pub enum Team {
    Cookie,
    Milk,
}

impl From<Team> for Piece {
    fn from(val: Team) -> (r: Piece) {
        match val {
            Team::Cookie => Piece::Cookie,
            Team::Milk => Piece::Milk,
        }
    }
}

impl vstd::std_specs::convert::FromSpecImpl<Team> for Piece {
    open spec fn obeys_from_spec() -> bool {
        true
    }

    open spec fn from_spec(val: Team) -> Piece {
        match val {
            Team::Cookie => Piece::Cookie,
            Team::Milk => Piece::Milk,
        }
    }
}

/// A placement request: which team drops a token, and into which column.
#[derive(Copy, Clone, Debug, PartialEq, Eq, Structural)]
pub struct PlacePieceParams {
    pub team: Team,
    pub column: usize,
}

/// Why a placement was rejected.
///
/// `BadInput` covers an out-of-range column or an unrecognized team token
/// and carries no payload; `BoardFinished` covers a placement on a finished
/// board or into a full column and carries the rendering of the unchanged
/// board.
#[derive(Debug, PartialEq, Eq)]
pub enum PlaceError {
    BadInput,
    BoardFinished(String),
}

/// The seed every fresh board gives its generator.
pub const SEED: u64 = 2024;

/// Index of the cell at `row`, `col` in the row-major grid sequence.
pub open spec fn idx(row: int, col: int) -> int {
    row * 6 + col
}

pub open spec fn in_bounds(row: int, col: int) -> bool {
    0 <= row < 5 && 0 <= col < 6
}

/// Border cells hold walls: the outer columns and the bottom row.
pub open spec fn is_border(row: int, col: int) -> bool {
    col == 0 || col == 5 || row == 4
}

/// No `Empty` cell remains anywhere in the grid.
pub open spec fn full(g: Seq<Piece>) -> bool {
    forall|i: int| 0 <= i < 30 ==> g[i] != Piece::Empty
}

/// The grid of a fresh board: walls on the border, empty cells inside.
pub open spec fn fresh_grid() -> Seq<Piece> {
    Seq::new(30, |i: int| if is_border(i / 6, i % 6) { Piece::Wall } else { Piece::Empty })
}

/// Fresh-board law: on a fresh grid the border cells are walls and every
/// other cell is empty.
pub proof fn lemma_fresh_cells(row: int, col: int)
    requires
        in_bounds(row, col),
    ensures
        fresh_grid()[idx(row, col)] == (if is_border(row, col) {
            Piece::Wall
        } else {
            Piece::Empty
        }),
{
    lemma_idx_bijective(row, col);
}

/// In-bounds coordinates and flat indices determine each other.
pub proof fn lemma_idx_bijective(row: int, col: int)
    requires
        in_bounds(row, col),
    ensures
        0 <= idx(row, col) < 30,
        idx(row, col) / 6 == row,
        idx(row, col) % 6 == col,
{
    assert((row * 6 + col) / 6 == row && (row * 6 + col) % 6 == col) by (nonlinear_arith)
        requires 0 <= row < 5 && 0 <= col < 6;
}

/// The landing row for a drop into `col` when only rows `0..=row` are
/// still candidates: scanning from row `row` toward row 0 — on the board,
/// from the bottom of the playable area upward — the first `Empty` cell.
pub open spec fn drop_row_from(g: Seq<Piece>, col: int, row: int) -> Option<int>
    decreases row + 1,
{
    if row < 0 {
        None
    } else if g[idx(row, col)] == Piece::Empty {
        Some(row)
    } else {
        drop_row_from(g, col, row - 1)
    }
}

/// The landing row for a drop into `col`: scanning playable rows from the
/// bottommost upward, the first whose cell is `Empty`.
pub open spec fn drop_row(g: Seq<Piece>, col: int) -> Option<int> {
    drop_row_from(g, col, 3)
}

/// The two recognized team tokens.
pub open spec fn valid_team(t: Seq<char>) -> bool {
    t == "cookie"@ || t == "milk"@
}

/// The piece a recognized team token places.
pub open spec fn team_piece(t: Seq<char>) -> Piece {
    if t == "cookie"@ {
        Piece::Cookie
    } else {
        Piece::Milk
    }
}

/// Exactly when a placement request succeeds: the board is not finished,
/// the column is playable, the team token is recognized, and the column
/// still has an empty playable row.
pub open spec fn place_ok(b: Board, t: Seq<char>, col: int) -> bool {
    &&& !b.finished
    &&& 1 <= col <= 4
    &&& valid_team(t)
    &&& drop_row(b.grid@, col) is Some
}

proof fn lemma_drop_row_from_props(g: Seq<Piece>, col: int, row: int)
    requires
        -1 <= row <= 3,
    ensures
        match drop_row_from(g, col, row) {
            Some(r) => 0 <= r <= row && g[idx(r, col)] == Piece::Empty && (forall|j: int|
                r < j <= row ==> g[#[trigger] idx(j, col)] != Piece::Empty),
            None => forall|j: int| 0 <= j <= row ==> g[#[trigger] idx(j, col)] != Piece::Empty,
        },
    decreases row + 1,
{
    if row >= 0 {
        if g[idx(row, col)] != Piece::Empty {
            lemma_drop_row_from_props(g, col, row - 1);
        }
    }
}

/// Gravity law: a drop lands in the lowest-from-bottom empty playable row
/// of its column — every playable row below the landing row is occupied —
/// and a column with no empty playable row rejects the drop.
pub proof fn lemma_gravity(g: Seq<Piece>, col: int)
    ensures
        match drop_row(g, col) {
            Some(r) => 0 <= r <= 3 && g[idx(r, col)] == Piece::Empty && (forall|j: int|
                r < j <= 3 ==> g[#[trigger] idx(j, col)] != Piece::Empty),
            None => forall|j: int| 0 <= j <= 3 ==> g[#[trigger] idx(j, col)] != Piece::Empty,
        },
{
    lemma_drop_row_from_props(g, col, 3);
}

/// Stacking law: once a drop lands a token at row `r`, the column is solid
/// from the bottommost playable row up to and including `r`, so repeated
/// drops into one column stack upward without gaps.
pub proof fn lemma_stack_upward(g: Seq<Piece>, col: int, r: int, p: Piece)
    requires
        g.len() == 30,
        1 <= col <= 4,
        drop_row(g, col) == Some(r),
        p != Piece::Empty,
    ensures
        forall|j: int|
            r <= j <= 3 ==> g.update(idx(r, col), p)[#[trigger] idx(j, col)] != Piece::Empty,
{
    lemma_gravity(g, col);
    assert forall|j: int|
        r <= j <= 3 implies g.update(idx(r, col), p)[#[trigger] idx(j, col)]
        != Piece::Empty by {
        lemma_idx_bijective(r, col);
        lemma_idx_bijective(j, col);
    }
}

/// The board: grid cells, outcome flags, and the owned generator.
pub struct Board {
    pub grid: Vec<Piece>,
    pub winner: Option<Piece>,
    pub finished: bool,
    pub rng: rand::rngs::StdRng,
}

impl Default for Board {
    /// Same as `new`: a fresh board.
    fn default() -> (b: Board)
        ensures
            b.wf(),
            b.grid@ == fresh_grid(),
            b.winner is None,
            !b.finished,
    {
        Board::new()
    }
}

impl Board {
    /// The cell at `row`, `col`.
    pub open spec fn cell(self, row: int, col: int) -> Piece {
        self.grid@[idx(row, col)]
    }

    /// Well-formedness: 30 cells, walls exactly on the border, and a winner
    /// that can only be one of the two teams.
    pub open spec fn wf(self) -> bool {
        &&& self.grid@.len() == 30
        &&& forall|row: int, col: int|
            in_bounds(row, col) && is_border(row, col) ==> self.grid@[#[trigger] idx(row, col)]
                == Piece::Wall
        &&& forall|row: int, col: int|
            in_bounds(row, col) && !is_border(row, col) ==> self.grid@[#[trigger] idx(row, col)]
                != Piece::Wall
        &&& match self.winner {
            None => true,
            Some(p) => p == Piece::Cookie || p == Piece::Milk,
        }
    }

    /// A fresh board: walls placed, interior empty, no winner, not finished,
    /// generator seeded with the fixed constant.
    pub fn new() -> (b: Board)
        ensures
            b.wf(),
            b.grid@ == fresh_grid(),
            b.winner is None,
            !b.finished,
    {
        let mut grid: Vec<Piece> = Vec::new();
        let mut row: usize = 0;
        while row < 5
            invariant
                row <= 5,
                grid@.len() == row * 6,
                forall|i: int| 0 <= i < row * 6 ==> grid@[i] == fresh_grid()[i],
            decreases 5 - row,
        {
            let mut col: usize = 0;
            while col < 6
                invariant
                    row < 5,
                    col <= 6,
                    grid@.len() == row * 6 + col,
                    forall|i: int| 0 <= i < row * 6 + col ==> grid@[i] == fresh_grid()[i],
                decreases 6 - col,
            {
                let p = if col == 0 || col == 5 || row == 4 {
                    Piece::Wall
                } else {
                    Piece::Empty
                };
                grid.push(p);
                proof {
                    lemma_idx_bijective(row as int, col as int);
                }
                col += 1;
            }
            row += 1;
        }
        let b = Board { grid, winner: None, finished: false, rng: seeded_generator(SEED) };
        proof {
            assert(b.grid@ =~= fresh_grid());
            assert forall|r: int, c: int|
                in_bounds(r, c) && is_border(r, c) implies b.grid@[#[trigger] idx(r, c)]
                == Piece::Wall by {
                lemma_idx_bijective(r, c);
            }
            assert forall|r: int, c: int|
                in_bounds(r, c) && !is_border(r, c) implies b.grid@[#[trigger] idx(r, c)]
                != Piece::Wall by {
                lemma_idx_bijective(r, c);
            }
        }
        b
    }

    /// Discards all state and behaves exactly like `new`, reseeding the
    /// generator to the fixed constant.
    pub fn reset(&mut self)
        ensures
            final(self).wf(),
            final(self).grid@ == fresh_grid(),
            final(self).winner is None,
            !final(self).finished,
    {
        *self = Board::new();
    }

    /// The cell at in-bounds coordinates.
    pub fn get_piece(&self, row: usize, col: usize) -> (p: Piece)
        requires
            self.wf(),
            in_bounds(row as int, col as int),
        ensures
            p == self.cell(row as int, col as int),
    {
        proof {
            lemma_idx_bijective(row as int, col as int);
        }
        self.grid[row * 6 + col]
    }

    /// Whether the cell at in-bounds coordinates holds a team token.
    pub fn has_piece(&self, row: usize, col: usize) -> (b: bool)
        requires
            self.wf(),
            in_bounds(row as int, col as int),
        ensures
            b == (self.cell(row as int, col as int) == Piece::Cookie || self.cell(
                row as int,
                col as int,
            ) == Piece::Milk),
    {
        let p = self.get_piece(row, col);
        p == Piece::Cookie || p == Piece::Milk
    }

    /// Writes the cell at in-bounds coordinates and re-evaluates `finished`
    /// as "no empty cell remains anywhere in the grid".
    pub fn set_piece(&mut self, row: usize, col: usize, piece: Piece)
        requires
            old(self).wf(),
            in_bounds(row as int, col as int),
        ensures
            final(self).grid@ == old(self).grid@.update(idx(row as int, col as int), piece),
            final(self).winner == old(self).winner,
            final(self).rng == old(self).rng,
            final(self).finished == full(final(self).grid@),
    {
        proof {
            lemma_idx_bijective(row as int, col as int);
        }
        self.grid.set(row * 6 + col, piece);
        self.check_finished();
    }

    /// Validates a drop request and applies gravity: the token lands in the
    /// lowest empty playable row of the column.  Exactly one cell changes
    /// on success and nothing changes on any failure.
    pub fn play_piece(&mut self, team: &str, col: usize) -> (r: Result<(), PlaceError>)
        requires
            old(self).wf(),
        ensures
            final(self).wf(),
            r is Ok <==> place_ok(*old(self), team@, col as int),
            r is Err ==> *final(self) == *old(self),
            old(self).finished ==> (r matches Err(PlaceError::BoardFinished(m)) && m@
                == render_spec(*old(self))),
            !old(self).finished && !(1 <= col <= 4) ==> r == Err::<(), PlaceError>(
                PlaceError::BadInput,
            ),
            !old(self).finished && 1 <= col <= 4 && !valid_team(team@) ==> r == Err::<
                (),
                PlaceError,
            >(PlaceError::BadInput),
            !old(self).finished && 1 <= col <= 4 && valid_team(team@) && drop_row(
                old(self).grid@,
                col as int,
            ) is None ==> (r matches Err(PlaceError::BoardFinished(m)) && m@ == render_spec(
                *old(self),
            )),
            r is Ok ==> (drop_row(old(self).grid@, col as int) matches Some(row)
                && final(self).grid@ == old(self).grid@.update(
                idx(row, col as int),
                team_piece(team@),
            ) && final(self).winner == old(self).winner && final(self).finished == full(
                final(self).grid@,
            ) && final(self).rng == old(self).rng),
            old(self).finished ==> final(self).finished,
    {
        if self.finished {
            return Err(PlaceError::BoardFinished(self.render()));
        }
        if col < 1 || col > 4 {
            return Err(PlaceError::BadInput);
        }
        let is_cookie = str_eq(team, "cookie");
        let is_milk = str_eq(team, "milk");
        if !is_cookie && !is_milk {
            return Err(PlaceError::BadInput);
        }
        let piece = if is_cookie {
            Piece::Cookie
        } else {
            Piece::Milk
        };
        let mut i: usize = 0;
        while i < 4
            invariant
                i <= 4,
                self == old(self),
                self.wf(),
                !self.finished,
                1 <= col <= 4,
                valid_team(team@),
                piece == team_piece(team@),
                drop_row(self.grid@, col as int) == drop_row_from(
                    self.grid@,
                    col as int,
                    3 - i,
                ),
            decreases 4 - i,
        {
            let row = 3 - i;
            if !self.has_piece(row, col) {
                proof {
                    lemma_idx_bijective(row as int, col as int);
                    assert(self.cell(row as int, col as int) == Piece::Empty);
                    assert(drop_row(self.grid@, col as int) == Some(row as int));
                }
                self.set_piece(row, col, piece);
                proof {
                    assert forall|rr: int, cc: int|
                        in_bounds(rr, cc) && is_border(rr, cc) implies self.grid@[#[trigger] idx(
                        rr,
                        cc,
                    )] == Piece::Wall by {
                        lemma_idx_bijective(rr, cc);
                        lemma_idx_bijective(row as int, col as int);
                    }
                    assert forall|rr: int, cc: int|
                        in_bounds(rr, cc) && !is_border(rr, cc) implies self.grid@[#[trigger] idx(
                        rr,
                        cc,
                    )] != Piece::Wall by {
                        lemma_idx_bijective(rr, cc);
                        lemma_idx_bijective(row as int, col as int);
                    }
                }
                return Ok(());
            }
            proof {
                assert(self.cell(row as int, col as int) != Piece::Empty);
            }
            i += 1;
        }
        Err(PlaceError::BoardFinished(self.render()))
    }

    /// Recomputes `finished`: true exactly when no cell is `Empty`.
    fn check_finished(&mut self)
        requires
            old(self).grid@.len() == 30,
        ensures
            final(self).grid == old(self).grid,
            final(self).winner == old(self).winner,
            final(self).rng == old(self).rng,
            final(self).finished == full(old(self).grid@),
    {
        let mut has_empty = false;
        let mut i: usize = 0;
        while i < 30
            invariant
                i <= 30,
                self.grid == old(self).grid,
                self.winner == old(self).winner,
                self.rng == old(self).rng,
                self.grid@.len() == 30,
                has_empty == !(forall|j: int| 0 <= j < i ==> self.grid@[j] != Piece::Empty),
            decreases 30 - i,
        {
            if self.grid[i] == Piece::Empty {
                has_empty = true;
            }
            i += 1;
        }
        self.finished = !has_empty;
    }
}

} // verus!

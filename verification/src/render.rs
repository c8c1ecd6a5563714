//! The canonical text rendering of a board.
//!
//! Five lines of six single-glyph cells, each line ending in a newline,
//! followed by one outcome line only when the board is terminal: the
//! winner's name with `wins!`, or `No winner.` for a draw.

use crate::board::{idx, Board, Piece};
use vstd::prelude::*;

verus! {

/// The glyph a cell renders to.
pub open spec fn glyph_str(p: Piece) -> Seq<char> {
    match p {
        Piece::Wall => "⬜"@,
        Piece::Empty => "⬛"@,
        Piece::Cookie => "🍪"@,
        Piece::Milk => "🥛"@,
    }
}

/// The first `ncols` glyphs of row `row`.
pub open spec fn row_chars(g: Seq<Piece>, row: int, ncols: int) -> Seq<char>
    decreases ncols,
{
    if ncols <= 0 {
        Seq::empty()
    } else {
        row_chars(g, row, ncols - 1) + glyph_str(g[idx(row, ncols - 1)])
    }
}

/// The first `nrows` rendered rows, newline-terminated each.
pub open spec fn grid_chars(g: Seq<Piece>, nrows: int) -> Seq<char>
    decreases nrows,
{
    if nrows <= 0 {
        Seq::empty()
    } else {
        grid_chars(g, nrows - 1) + row_chars(g, nrows - 1, 6) + "\n"@
    }
}

/// The trailing line a winning team produces.
pub open spec fn winner_line(p: Piece) -> Seq<char> {
    match p {
        Piece::Cookie => "Cookie wins!\n"@,
        Piece::Milk => "Milk wins!\n"@,
        _ => Seq::empty(),
    }
}

/// The trailing outcome line: present only in a terminal state.
pub open spec fn outcome_line(winner: Option<Piece>, finished: bool) -> Seq<char> {
    match winner {
        Some(p) => winner_line(p),
        None => if finished {
            "No winner.\n"@
        } else {
            Seq::empty()
        },
    }
}

/// The full rendering of a board.
pub open spec fn render_spec(b: Board) -> Seq<char> {
    grid_chars(b.grid@, 5) + outcome_line(b.winner, b.finished)
}

/// The glyph a cell renders to.
pub fn glyph(p: Piece) -> (g: &'static str)
    ensures
        g@ == glyph_str(p),
{
    match p {
        Piece::Wall => "⬜",
        Piece::Empty => "⬛",
        Piece::Cookie => "🍪",
        Piece::Milk => "🥛",
    }
}

impl Board {
    /// Serializes the grid and the outcome to the fixed textual form.
    /// A pure function of the current state; no mutation.
    pub fn render(&self) -> (r: String)
        requires
            self.wf(),
        ensures
            r@ == render_spec(*self),
    {
        let mut s = String::new();
        let mut row: usize = 0;
        while row < 5
            invariant
                row <= 5,
                self.wf(),
                s@ == grid_chars(self.grid@, row as int),
            decreases 5 - row,
        {
            let mut col: usize = 0;
            while col < 6
                invariant
                    row < 5,
                    col <= 6,
                    self.wf(),
                    s@ == grid_chars(self.grid@, row as int) + row_chars(
                        self.grid@,
                        row as int,
                        col as int,
                    ),
                decreases 6 - col,
            {
                let p = self.get_piece(row, col);
                s.append(glyph(p));
                proof {
                    assert(grid_chars(self.grid@, row as int) + row_chars(
                        self.grid@,
                        row as int,
                        col as int + 1,
                    ) =~= (grid_chars(self.grid@, row as int) + row_chars(
                        self.grid@,
                        row as int,
                        col as int,
                    )) + glyph_str(self.cell(row as int, col as int)));
                }
                col += 1;
            }
            s.append("\n");
            proof {
                assert(grid_chars(self.grid@, row as int + 1) =~= (grid_chars(
                    self.grid@,
                    row as int,
                ) + row_chars(self.grid@, row as int, 6)) + "\n"@);
            }
            row += 1;
        }
        if let Some(p) = self.winner {
            match p {
                Piece::Cookie => s.append("Cookie wins!\n"),
                Piece::Milk => s.append("Milk wins!\n"),
                Piece::Empty => (),
                Piece::Wall => (),
            }
        } else if self.finished {
            s.append("No winner.\n");
        }
        proof {
            assert(s@ =~= render_spec(*self));
        }
        s
    }
}

} // verus!

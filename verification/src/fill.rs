//! The random filler: a deterministic fill of the playable area from the
//! board's owned generator.
//!
//! Drawing the bits is the only unverified step (see `rng`); everything
//! they determine — which cells change, to what, and what the win check
//! then reports — is verified for every possible sequence of bits via
//! `fill_from_bits`.

use crate::board::{full, idx, in_bounds, is_border, lemma_idx_bijective, Board, Piece};
use crate::detect::{detect_finished, detect_winner, scan_winner};
use crate::rng::draw_bool;
use vstd::prelude::*;

verus! {

/// The grid a fill with `bits` produces: walls on the border; the playable
/// cell at row `r`, column `c` holds `Cookie` when bit `r * 4 + (c - 1)` is
/// true and `Milk` when it is false.
pub open spec fn filled_grid(bits: Seq<bool>) -> Seq<Piece> {
    Seq::new(
        30,
        |i: int|
            if is_border(i / 6, i % 6) {
                Piece::Wall
            } else if bits[(i / 6) * 4 + (i % 6 - 1)] {
                Piece::Cookie
            } else {
                Piece::Milk
            },
    )
}

impl Board {
    /// Clears the winner and unconditionally overwrites every playable
    /// cell, row by row then column by column, with the token the matching
    /// bit selects.  The grid afterwards is a function of the bits alone,
    /// and the board is full, hence finished.
    pub fn fill_from_bits(&mut self, bits: &Vec<bool>)
        requires
            old(self).wf(),
            bits@.len() == 16,
        ensures
            final(self).wf(),
            final(self).grid@ == filled_grid(bits@),
            final(self).winner is None,
            final(self).finished,
            final(self).rng == old(self).rng,
    {
        self.winner = None;
        let mut row: usize = 0;
        while row < 4
            invariant
                row <= 4,
                self.wf(),
                bits@.len() == 16,
                self.winner is None,
                self.rng == old(self).rng,
                forall|r: int, c: int|
                    0 <= r < row && 1 <= c <= 4 ==> self.grid@[#[trigger] idx(r, c)] == (
                    if bits@[r * 4 + (c - 1)] {
                        Piece::Cookie
                    } else {
                        Piece::Milk
                    }),
                row > 0 ==> self.finished == full(self.grid@),
            decreases 4 - row,
        {
            let mut col: usize = 1;
            while col < 5
                invariant
                    row < 4,
                    1 <= col <= 5,
                    self.wf(),
                    bits@.len() == 16,
                    self.winner is None,
                    self.rng == old(self).rng,
                    forall|r: int, c: int|
                        0 <= r < row && 1 <= c <= 4 ==> self.grid@[#[trigger] idx(r, c)] == (
                        if bits@[r * 4 + (c - 1)] {
                            Piece::Cookie
                        } else {
                            Piece::Milk
                        }),
                    forall|c: int|
                        1 <= c < col ==> self.grid@[#[trigger] idx(row as int, c)] == (
                        if bits@[row as int * 4 + (c - 1)] {
                            Piece::Cookie
                        } else {
                            Piece::Milk
                        }),
                    row > 0 || col > 1 ==> self.finished == full(self.grid@),
                decreases 5 - col,
            {
                let bit = bits[row * 4 + (col - 1)];
                let piece = if bit {
                    Piece::Cookie
                } else {
                    Piece::Milk
                };
                self.set_piece(row, col, piece);
                proof {
                    assert forall|rr: int, cc: int|
                        in_bounds(rr, cc) && is_border(rr, cc) implies self.grid@[#[trigger] idx(
                        rr,
                        cc,
                    )] == Piece::Wall by {
                        lemma_idx_bijective(rr, cc);
                        lemma_idx_bijective(row as int, col as int);
                    }
                    assert forall|rr: int, cc: int|
                        in_bounds(rr, cc) && !is_border(rr, cc) implies self.grid@[#[trigger] idx(
                        rr,
                        cc,
                    )] != Piece::Wall by {
                        lemma_idx_bijective(rr, cc);
                        lemma_idx_bijective(row as int, col as int);
                    }
                    assert forall|r: int, c: int|
                        0 <= r <= row && 1 <= c <= 4 && (r < row || c <= col) implies self.grid@[#[trigger] idx(
                        r,
                        c,
                    )] == (if bits@[r * 4 + (c - 1)] {
                        Piece::Cookie
                    } else {
                        Piece::Milk
                    }) by {
                        lemma_idx_bijective(r, c);
                        lemma_idx_bijective(row as int, col as int);
                    }
                }
                col += 1;
            }
            row += 1;
        }
        proof {
            assert forall|i: int| 0 <= i < 30 implies self.grid@[i] == filled_grid(bits@)[i] by {
                let r = i / 6;
                let c = i % 6;
                assert(in_bounds(r, c) && idx(r, c) == i) by (nonlinear_arith)
                    requires 0 <= i < 30 && r == i / 6 && c == i % 6;
            }
            assert(self.grid@ =~= filled_grid(bits@));
            assert forall|i: int| 0 <= i < 30 implies self.grid@[i] != Piece::Empty by {
                let r = i / 6;
                let c = i % 6;
                assert(in_bounds(r, c) && idx(r, c) == i) by (nonlinear_arith)
                    requires 0 <= i < 30 && r == i / 6 && c == i % 6;
            }
        }
    }

    /// Clears the winner, fills every playable cell with tokens drawn from
    /// the owned generator — advancing its state, so consecutive calls give
    /// different but reproducible grids — and runs the win check once.
    /// Always succeeds; the filled board is full, hence finished.
    pub fn random_board(&mut self)
        requires
            old(self).wf(),
        ensures
            final(self).wf(),
            exists|bits: Seq<bool>|
                bits.len() == 16 && final(self).grid@ == filled_grid(bits),
            final(self).winner == scan_winner(final(self).grid@),
            final(self).finished,
            old(self).finished ==> final(self).finished,
    {
        let mut bits: Vec<bool> = Vec::new();
        let mut i: usize = 0;
        while i < 16
            invariant
                i <= 16,
                bits@.len() == i,
                self.grid == old(self).grid,
                self.winner == old(self).winner,
                self.finished == old(self).finished,
                self.wf(),
            decreases 16 - i,
        {
            let b = draw_bool(&mut self.rng);
            bits.push(b);
            i += 1;
        }
        self.fill_from_bits(&bits);
        self.check_winner();
        proof {
            assert(detect_winner(None, self.grid@) == scan_winner(self.grid@));
            assert(bits@.len() == 16 && self.grid@ == filled_grid(bits@));
        }
    }
}

} // verus!

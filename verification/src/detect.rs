//! Win detection: a fixed scan over ten four-cell lines.
//!
//! The lines cover the playable 4x4 sub-grid and are checked in a fixed
//! order: the four rows top to bottom, the four columns left to right, the
//! descending diagonal, then the ascending diagonal.  The first line whose
//! four cells all hold one team's token decides the winner; that order is
//! the tie-break policy when several lines qualify at once.

use crate::board::{idx, in_bounds, is_border, Board, Piece};
use vstd::prelude::*;

verus! {

/// Row of the `i`-th cell of line `k` in the fixed scan order.
pub open spec fn line_row(k: int, i: int) -> int {
    if k < 4 {
        k
    } else if k < 8 {
        i
    } else if k == 8 {
        i
    } else {
        3 - i
    }
}

/// Column of the `i`-th cell of line `k` in the fixed scan order.
pub open spec fn line_col(k: int, i: int) -> int {
    if k < 4 {
        i + 1
    } else if k < 8 {
        k - 3
    } else {
        i + 1
    }
}

/// The winner line `k` yields on grid `g`: a team whose token fills all
/// four cells of the line, if there is one.
pub open spec fn line_winner(g: Seq<Piece>, k: int) -> Option<Piece> {
    let a = g[idx(line_row(k, 0), line_col(k, 0))];
    let b = g[idx(line_row(k, 1), line_col(k, 1))];
    let c = g[idx(line_row(k, 2), line_col(k, 2))];
    let d = g[idx(line_row(k, 3), line_col(k, 3))];
    if a == Piece::Milk && b == Piece::Milk && c == Piece::Milk && d == Piece::Milk {
        Some(Piece::Milk)
    } else if a == Piece::Cookie && b == Piece::Cookie && c == Piece::Cookie && d
        == Piece::Cookie {
        Some(Piece::Cookie)
    } else {
        None
    }
}

/// The winner of the earliest qualifying line at or after line `k`.
pub open spec fn scan_from(g: Seq<Piece>, k: int) -> Option<Piece>
    decreases 10 - k,
{
    if k >= 10 {
        None
    } else if line_winner(g, k) is Some {
        line_winner(g, k)
    } else {
        scan_from(g, k + 1)
    }
}

/// The winner the full fixed scan reports on grid `g`.
pub open spec fn scan_winner(g: Seq<Piece>) -> Option<Piece> {
    scan_from(g, 0)
}

/// The winner after one win check: an already set winner is kept, else the
/// scan decides.
pub open spec fn detect_winner(w: Option<Piece>, g: Seq<Piece>) -> Option<Piece> {
    if w is Some {
        w
    } else {
        scan_winner(g)
    }
}

/// The finished flag after one win check: untouched unless the scan finds
/// a fresh winner.
pub open spec fn detect_finished(w: Option<Piece>, f: bool, g: Seq<Piece>) -> bool {
    if w is Some {
        f
    } else if scan_winner(g) is Some {
        true
    } else {
        f
    }
}

/// While no line before `k` qualifies, the full scan agrees with the scan
/// that starts at `k`.
proof fn lemma_scan_prefix(g: Seq<Piece>, k: int)
    requires
        0 <= k <= 10,
        forall|j: int| 0 <= j < k ==> line_winner(g, j) is None,
    ensures
        scan_winner(g) == scan_from(g, k),
    decreases k,
{
    if k > 0 {
        lemma_scan_prefix(g, k - 1);
    }
}

/// Tie-break law: when line `k` qualifies and no earlier line does, the
/// scan reports line `k`'s winner, whatever the lines after `k` hold.
pub proof fn lemma_first_line_wins(g: Seq<Piece>, k: int)
    requires
        0 <= k < 10,
        line_winner(g, k) is Some,
        forall|j: int| 0 <= j < k ==> line_winner(g, j) is None,
    ensures
        scan_winner(g) == line_winner(g, k),
{
    lemma_scan_prefix(g, k);
}

/// Idempotence law: a winner, once set, is never changed by a later win
/// check, and a second check right after a first one changes nothing.
pub proof fn lemma_detection_idempotent(w: Option<Piece>, f: bool, g: Seq<Piece>)
    ensures
        w is Some ==> detect_winner(w, g) == w,
        detect_winner(detect_winner(w, g), g) == detect_winner(w, g),
        detect_finished(detect_winner(w, g), detect_finished(w, f, g), g) == detect_finished(
            w,
            f,
            g,
        ),
{
}

/// Coordinates of the `i`-th cell of line `k`; always playable.
fn line_cell(k: usize, i: usize) -> (rc: (usize, usize))
    requires
        k < 10,
        i < 4,
    ensures
        rc.0 == line_row(k as int, i as int),
        rc.1 == line_col(k as int, i as int),
        in_bounds(rc.0 as int, rc.1 as int),
        !is_border(rc.0 as int, rc.1 as int),
{
    if k < 4 {
        (k, i + 1)
    } else if k < 8 {
        (i, k - 3)
    } else if k == 8 {
        (i, i + 1)
    } else {
        (3 - i, i + 1)
    }
}

impl Board {
    /// Scans the ten fixed lines in order and records the first winner
    /// found; a no-op when a winner is already set.  Produces no error and
    /// never clears `finished`.
    pub fn check_winner(&mut self)
        requires
            old(self).wf(),
        ensures
            final(self).wf(),
            final(self).grid == old(self).grid,
            final(self).rng == old(self).rng,
            final(self).winner == detect_winner(old(self).winner, old(self).grid@),
            final(self).finished == detect_finished(
                old(self).winner,
                old(self).finished,
                old(self).grid@,
            ),
            old(self).finished ==> final(self).finished,
    {
        if self.winner.is_some() {
            return ;
        }
        let mut k: usize = 0;
        while k < 10
            invariant
                k <= 10,
                self.wf(),
                self.grid == old(self).grid,
                self.winner == old(self).winner,
                self.finished == old(self).finished,
                self.rng == old(self).rng,
                self.winner is None,
                forall|j: int| 0 <= j < k ==> line_winner(self.grid@, j) is None,
            decreases 10 - k,
        {
            let (r0, c0) = line_cell(k, 0);
            let (r1, c1) = line_cell(k, 1);
            let (r2, c2) = line_cell(k, 2);
            let (r3, c3) = line_cell(k, 3);
            let a = self.get_piece(r0, c0);
            let b = self.get_piece(r1, c1);
            let c = self.get_piece(r2, c2);
            let d = self.get_piece(r3, c3);
            if (a == Piece::Milk && b == Piece::Milk && c == Piece::Milk && d == Piece::Milk) || (a
                == Piece::Cookie && b == Piece::Cookie && c == Piece::Cookie && d
                == Piece::Cookie) {
                proof {
                    assert(line_winner(self.grid@, k as int) == Some(a));
                    lemma_scan_prefix(self.grid@, k as int);
                }
                self.winner = Some(a);
                self.finished = true;
                return ;
            }
            proof {
                assert(line_winner(self.grid@, k as int) is None);
            }
            k += 1;
        }
        proof {
            lemma_scan_prefix(self.grid@, 10);
        }
    }
}

} // verus!

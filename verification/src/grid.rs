//! The cube as a grid of stickers: six faces, each a ring of eight colour
//! ids, and what a quarter-turn does to that grid.
//!
//! Positions 0..8 run clockwise around a face. The centre of a face is not
//! part of the grid: it never moves.
use crate::turn::{Direction, Face, Rotation};
use vstd::prelude::*;

verus! {

/// `g[f][p]` is the colour id of the sticker at position `p` of face `f`.
pub type Grid = Seq<Seq<nat>>;

/// Six faces of eight stickers each.
pub open spec fn well_shaped(g: Grid) -> bool {
    &&& g.len() == 6
    &&& forall|f: int| 0 <= f < 6 ==> (#[trigger] g[f]).len() == 8
}

/// Every sticker holds one of the six colour ids.
pub open spec fn holds_colours(g: Grid) -> bool {
    forall|f: int, p: int| 0 <= f < 6 && 0 <= p < 8 ==> #[trigger] g[f][p] < 6
}

/// Face `f` entirely covered by colour `f`.
pub open spec fn solved_grid() -> Grid {
    Seq::new(6, |f: int| Seq::new(8, |p: int| f as nat))
}

/// The grid with the stickers at addresses `a` and `b` exchanged.
pub open spec fn swapped(g: Grid, a: (int, int), b: (int, int)) -> Grid {
    Seq::new(
        6,
        |f: int|
            Seq::new(
                8,
                |p: int|
                    if (f, p) == a {
                        g[b.0][b.1]
                    } else if (f, p) == b {
                        g[a.0][a.1]
                    } else {
                        g[f][p]
                    },
            ),
    )
}

/// The ring of four rows around `face`: each row is on a neighbouring
/// face, given by its number, and starts at the given position. A turn
/// against the clock hands every row the stickers of the row after it.
pub open spec fn rows_around(face: Face) -> Seq<(int, int)> {
    match face {
        Face::U => seq![(4, 0), (3, 0), (2, 0), (1, 0)],
        Face::L => seq![(0, 6), (2, 6), (5, 6), (4, 2)],
        Face::F => seq![(3, 6), (5, 0), (1, 2), (0, 4)],
        Face::R => seq![(0, 2), (4, 6), (5, 2), (2, 2)],
        Face::B => seq![(0, 0), (1, 6), (5, 4), (3, 2)],
        Face::D => seq![(2, 4), (3, 4), (4, 4), (1, 4)],
    }
}

/// Row `k` of the ring around `face`.
pub open spec fn ring(face: Face, k: int) -> (int, int) {
    rows_around(face)[k]
}

/// The position `n` places clockwise from `p` on the ring of eight, for
/// `p` and `n` below eight.
pub open spec fn along(p: int, n: int) -> int {
    if p + n < 8 {
        p + n
    } else {
        p + n - 8
    }
}

/// How many places clockwise position `p` lies from position `start`.
pub open spec fn offset(start: int, p: int) -> int {
    if p >= start {
        p - start
    } else {
        p - start + 8
    }
}

/// Whether the cell `(f, p)` is one of the three stickers of `row`.
pub open spec fn on_row(row: (int, int), f: int, p: int) -> bool {
    f == row.0 && offset(row.1, p) < 3
}

/// The index of the row of `face`'s ring that holds cell `(f, p)`, or 4
/// when the cell lies on none of them.
pub open spec fn row_of(face: Face, f: int, p: int) -> int {
    if on_row(ring(face, 0), f, p) {
        0
    } else if on_row(ring(face, 1), f, p) {
        1
    } else if on_row(ring(face, 2), f, p) {
        2
    } else if on_row(ring(face, 3), f, p) {
        3
    } else {
        4
    }
}

/// How many places clockwise from a position of the turning face the
/// sticker lies that a quarter-turn brings there: two places back for a
/// clockwise turn, two places on for the other.
pub open spec fn quarter(dir: Direction) -> int {
    match dir {
        Direction::Cw => 6,
        Direction::Ccw => 2,
    }
}

/// The row of the ring whose stickers a quarter-turn hands to row `k`: the
/// row before it for a clockwise turn, the row after it for the other.
pub open spec fn handing_row(dir: Direction, k: int) -> int {
    match dir {
        Direction::Cw => if k == 0 {
            3
        } else {
            k - 1
        },
        Direction::Ccw => if k == 3 {
            0
        } else {
            k + 1
        },
    }
}

/// The cell whose sticker a quarter-turn of `face` brings to `(f, p)`.
///
/// On the turned face every sticker moves two places around the ring. On
/// the four neighbours the rows of three move one row along the ring of
/// rows, keeping their place within the row. Everything else stays.
pub open spec fn origin(face: Face, dir: Direction, f: int, p: int) -> (int, int) {
    if f == face.id() {
        (f, along(p, quarter(dir)))
    } else {
        let k = row_of(face, f, p);
        if k == 4 {
            (f, p)
        } else {
            let from = ring(face, handing_row(dir, k));
            (from.0, along(from.1, offset(ring(face, k).1, p)))
        }
    }
}

/// The grid after a quarter-turn of `face` in direction `dir`.
pub open spec fn turned(g: Grid, face: Face, dir: Direction) -> Grid {
    Seq::new(
        6,
        |f: int|
            Seq::new(
                8,
                |p: int|
                    {
                        let o = origin(face, dir, f, p);
                        g[o.0][o.1]
                    },
            ),
    )
}

/// The grid after the quarter-turns of `turns`, applied first to last.
pub open spec fn turned_all(g: Grid, turns: Seq<Rotation>) -> Grid
    decreases turns.len(),
{
    if turns.len() == 0 {
        g
    } else {
        let last = turns.last();
        turned(turned_all(g, turns.drop_last()), last.face, last.dir)
    }
}

} // verus!

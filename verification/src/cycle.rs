//! How the nine sticker exchanges of a quarter-turn add up: three make an
//! exchange of two rows, three row exchanges carry the four rows of a ring
//! one step along, and that with the spin of the face is the turn.
//!
//! A row is named by its face and the position where it starts.
use crate::grid::{along, offset, on_row, quarter, ring, swapped, turned, well_shaped, Grid};
use crate::turn::{Direction, Face};
use vstd::prelude::*;

verus! {

/// The grid with the three stickers of row `a` exchanged, place by place,
/// with those of row `b`, for rows on different faces.
pub open spec fn rows_swapped(g: Grid, a: (int, int), b: (int, int)) -> Grid {
    Seq::new(
        6,
        |f: int|
            Seq::new(
                8,
                |p: int|
                    if on_row(a, f, p) {
                        g[b.0][along(b.1, offset(a.1, p))]
                    } else if on_row(b, f, p) {
                        g[a.0][along(a.1, offset(b.1, p))]
                    } else {
                        g[f][p]
                    },
            ),
    )
}

/// The grid with the ring of `face` itself moved two places round.
pub open spec fn spun(g: Grid, face: Face, dir: Direction) -> Grid {
    Seq::new(
        6,
        |f: int|
            Seq::new(
                8,
                |p: int|
                    if f == face.id() {
                        g[f][along(p, quarter(dir))]
                    } else {
                        g[f][p]
                    },
            ),
    )
}

/// The first of the two neighbouring ring rows that exchange number `n` of
/// a turn works on: first to last against the clock, last to first with it.
pub open spec fn exchange(dir: Direction, n: int) -> int {
    if dir == Direction::Cw {
        2 - n
    } else {
        n
    }
}

/// The grid after the first `n` row exchanges of a turn of `face`.
pub open spec fn partly_cycled(g: Grid, face: Face, dir: Direction, n: int) -> Grid
    decreases n,
{
    if n <= 0 {
        g
    } else {
        let k = exchange(dir, n - 1);
        rows_swapped(partly_cycled(g, face, dir, n - 1), ring(face, k), ring(face, k + 1))
    }
}

/// The grid in which each of four rows on different faces holds what the
/// next row held: `e0` what `e1` held, and so on round to `e3`, which
/// holds what `e0` held.
pub open spec fn carried(
    g: Grid,
    e0: (int, int),
    e1: (int, int),
    e2: (int, int),
    e3: (int, int),
) -> Grid {
    Seq::new(
        6,
        |f: int|
            Seq::new(
                8,
                |p: int|
                    if on_row(e0, f, p) {
                        g[e1.0][along(e1.1, offset(e0.1, p))]
                    } else if on_row(e1, f, p) {
                        g[e2.0][along(e2.1, offset(e1.1, p))]
                    } else if on_row(e2, f, p) {
                        g[e3.0][along(e3.1, offset(e2.1, p))]
                    } else if on_row(e3, f, p) {
                        g[e0.0][along(e0.1, offset(e3.1, p))]
                    } else {
                        g[f][p]
                    },
            ),
    )
}

/// A face and a starting position that exist.
pub open spec fn is_row(e: (int, int)) -> bool {
    0 <= e.0 < 6 && 0 <= e.1 < 8
}

/// Exchanging the first, second and third stickers of two rows on
/// different faces exchanges the rows.
pub proof fn lemma_three_swaps(g: Grid, a: (int, int), b: (int, int))
    requires
        well_shaped(g),
        is_row(a),
        is_row(b),
        a.0 != b.0,
    ensures
        swapped(
            swapped(swapped(g, a, b), (a.0, along(a.1, 1)), (b.0, along(b.1, 1))),
            (a.0, along(a.1, 2)),
            (b.0, along(b.1, 2)),
        ) == rows_swapped(g, a, b),
{
    assert(swapped(
        swapped(swapped(g, a, b), (a.0, along(a.1, 1)), (b.0, along(b.1, 1))),
        (a.0, along(a.1, 2)),
        (b.0, along(b.1, 2)),
    ) =~~= rows_swapped(g, a, b));
}

/// Exchanging two rows does not depend on which is named first.
pub proof fn lemma_rows_swapped_either_way(g: Grid, a: (int, int), b: (int, int))
    requires
        a.0 != b.0,
    ensures
        rows_swapped(g, a, b) == rows_swapped(g, b, a),
{
    assert(rows_swapped(g, a, b) =~~= rows_swapped(g, b, a));
}

/// Three exchanges of neighbouring rows carry every row one step along.
pub proof fn lemma_three_exchanges(
    g: Grid,
    e0: (int, int),
    e1: (int, int),
    e2: (int, int),
    e3: (int, int),
)
    requires
        well_shaped(g),
        is_row(e0) && is_row(e1) && is_row(e2) && is_row(e3),
        e0.0 != e1.0 && e0.0 != e2.0 && e0.0 != e3.0,
        e1.0 != e2.0 && e1.0 != e3.0 && e2.0 != e3.0,
    ensures
        rows_swapped(rows_swapped(rows_swapped(g, e0, e1), e1, e2), e2, e3) == carried(
            g,
            e0,
            e1,
            e2,
            e3,
        ),
{
    assert(rows_swapped(rows_swapped(rows_swapped(g, e0, e1), e1, e2), e2, e3) =~~= carried(
        g,
        e0,
        e1,
        e2,
        e3,
    ));
}

/// The rows around a face lie on four different faces, none of them the
/// face itself.
pub proof fn lemma_ring_rows(face: Face)
    ensures
        forall|k: int| 0 <= k < 4 ==> is_row(#[trigger] ring(face, k)),
        forall|k: int| 0 <= k < 4 ==> (#[trigger] ring(face, k)).0 != face.id(),
        forall|j: int, k: int|
            0 <= j < k < 4 ==> (#[trigger] ring(face, j)).0 != (#[trigger] ring(face, k)).0,
{
}

/// Three exchanges of neighbouring rows, together with the spin of the
/// face, are the quarter-turn.
pub proof fn lemma_exchanges_make_the_turn(g: Grid, face: Face, dir: Direction)
    requires
        well_shaped(g),
    ensures
        partly_cycled(spun(g, face, dir), face, dir, 3) == turned(g, face, dir),
{
    let s = spun(g, face, dir);
    let (r0, r1, r2, r3) = (ring(face, 0), ring(face, 1), ring(face, 2), ring(face, 3));
    lemma_ring_rows(face);
    reveal_with_fuel(partly_cycled, 4);
    if dir == Direction::Cw {
        let s1 = rows_swapped(s, r2, r3);
        let s2 = rows_swapped(s1, r1, r2);
        lemma_rows_swapped_either_way(s, r2, r3);
        lemma_rows_swapped_either_way(s1, r1, r2);
        lemma_rows_swapped_either_way(s2, r0, r1);
        lemma_three_exchanges(s, r3, r2, r1, r0);
    } else {
        lemma_three_exchanges(s, r0, r1, r2, r3);
    }
    lemma_carried_rows_make_the_turn(g, face, dir);
}

/// The spin of the face and the rows of its ring carried one step along
/// are the quarter-turn.
pub proof fn lemma_carried_rows_make_the_turn(g: Grid, face: Face, dir: Direction)
    requires
        well_shaped(g),
    ensures
        dir == Direction::Cw ==> carried(
            spun(g, face, dir),
            ring(face, 3),
            ring(face, 2),
            ring(face, 1),
            ring(face, 0),
        ) == turned(g, face, dir),
        dir == Direction::Ccw ==> carried(
            spun(g, face, dir),
            ring(face, 0),
            ring(face, 1),
            ring(face, 2),
            ring(face, 3),
        ) == turned(g, face, dir),
{
    let s = spun(g, face, dir);
    let (r0, r1, r2, r3) = (ring(face, 0), ring(face, 1), ring(face, 2), ring(face, 3));
    lemma_ring_rows(face);
    let c = if dir == Direction::Cw {
        carried(s, r3, r2, r1, r0)
    } else {
        carried(s, r0, r1, r2, r3)
    };
    assert(c =~~= turned(g, face, dir));
}

} // verus!

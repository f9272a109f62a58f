//! What holds of every cube and every turn.
use crate::cube::Cube;
use crate::grid::{
    along, handing_row, holds_colours, offset, origin, quarter, ring, row_of, solved_grid,
    swapped, turned, turned_all, well_shaped, Grid,
};
use crate::turn::{Direction, Face, Rotation};
use vstd::prelude::*;

verus! {

/// Where the sticker of a cell comes from, by the kind of cell: on the
/// turning face, some places round the same face; on row `k` of the ring,
/// the same place of the row that hands on to `k`; elsewhere, the cell
/// itself.
proof fn lemma_origin(face: Face, dir: Direction, f: int, p: int)
    requires
        0 <= f < 6,
        0 <= p < 8,
    ensures
        ({
            let o = origin(face, dir, f, p);
            let k = row_of(face, f, p);
            let h = handing_row(dir, k);
            &&& 0 <= o.0 < 6 && 0 <= o.1 < 8
            &&& f == face.id() ==> o == (f, along(p, quarter(dir)))
            &&& f != face.id() && k == 4 ==> o == (f, p)
            &&& f != face.id() && k < 4 ==> {
                &&& 0 <= k
                &&& (f, p) == (ring(face, k).0, along(ring(face, k).1, offset(ring(face, k).1, p)))
                &&& o.0 != face.id()
                &&& row_of(face, o.0, o.1) == h
                &&& offset(ring(face, h).1, o.1) == offset(ring(face, k).1, p)
            }
        }),
{
}

/// Followed back through four quarter-turns, every cell is its own origin.
proof fn lemma_origin_four_times(face: Face, dir: Direction, f: int, p: int)
    requires
        0 <= f < 6,
        0 <= p < 8,
    ensures
        ({
            let o3 = origin(face, dir, f, p);
            let o2 = origin(face, dir, o3.0, o3.1);
            let o1 = origin(face, dir, o2.0, o2.1);
            let o0 = origin(face, dir, o1.0, o1.1);
            &&& 0 <= o3.0 < 6 && 0 <= o3.1 < 8
            &&& 0 <= o2.0 < 6 && 0 <= o2.1 < 8
            &&& 0 <= o1.0 < 6 && 0 <= o1.1 < 8
            &&& o0 == (f, p)
        }),
{
    let o3 = origin(face, dir, f, p);
    lemma_origin(face, dir, f, p);
    let o2 = origin(face, dir, o3.0, o3.1);
    lemma_origin(face, dir, o3.0, o3.1);
    let o1 = origin(face, dir, o2.0, o2.1);
    lemma_origin(face, dir, o2.0, o2.1);
    let o0 = origin(face, dir, o1.0, o1.1);
    lemma_origin(face, dir, o1.0, o1.1);
    lemma_origin(face, dir, o0.0, o0.1);
}

/// Four quarter-turns of one face in one direction bring every cube back
/// to where it was.
pub proof fn lemma_four_turns_restore(c: Cube, r: Rotation)
    ensures
        turned(
            turned(turned(turned(c@, r.face, r.dir), r.face, r.dir), r.face, r.dir),
            r.face,
            r.dir,
        ) == c@,
{
    c.lemma_view_well_shaped();
    let g1 = turned(c@, r.face, r.dir);
    let g2 = turned(g1, r.face, r.dir);
    let g3 = turned(g2, r.face, r.dir);
    let g4 = turned(g3, r.face, r.dir);
    assert forall|f: int, p: int| 0 <= f < 6 && 0 <= p < 8 implies g4[f][p] == c@[f][p] by {
        lemma_origin_four_times(r.face, r.dir, f, p);
    }
    assert(g4 =~~= c@);
}

/// A quarter-turn followed by the quarter-turn of the same face in the
/// opposite direction leaves every cube as it was.
pub proof fn lemma_reverse_turn_undoes(c: Cube, r: Rotation)
    ensures
        turned(turned(c@, r.face, r.dir), r.reversed().face, r.reversed().dir) == c@,
{
    c.lemma_view_well_shaped();
    let back = r.reversed();
    let g1 = turned(c@, r.face, r.dir);
    let g2 = turned(g1, back.face, back.dir);
    assert forall|f: int, p: int| 0 <= f < 6 && 0 <= p < 8 implies g2[f][p] == c@[f][p] by {
        let o = origin(r.face, back.dir, f, p);
        lemma_origin(r.face, back.dir, f, p);
        lemma_origin(r.face, r.dir, o.0, o.1);
    }
    assert(g2 =~~= c@);
}

/// No single quarter-turn leaves the solved cube solved.
pub proof fn lemma_one_turn_unsolves(r: Rotation)
    ensures
        turned(solved_grid(), r.face, r.dir) != solved_grid(),
{
    let g = turned(solved_grid(), r.face, r.dir);
    let cell = ring(r.face, 0);
    assert(g[cell.0][cell.1] != solved_grid()[cell.0][cell.1]);
}

/// Applying a sequence of turns is the same as applying any front part of
/// it and then the rest.
pub proof fn lemma_turns_in_two_parts(c: Cube, front: Seq<Rotation>, rest: Seq<Rotation>)
    ensures
        turned_all(c@, front + rest) == turned_all(turned_all(c@, front), rest),
    decreases rest.len(),
{
    if rest.len() > 0 {
        lemma_turns_in_two_parts(c, front, rest.drop_last());
        assert((front + rest).drop_last() =~= front + rest.drop_last());
    }
}

/// Exchanging the same two stickers twice leaves every cube as it was,
/// also when the two addresses are one.
pub proof fn lemma_swap_twice_restores(c: Cube, a: (int, int), b: (int, int))
    requires
        0 <= a.0 < 6 && 0 <= a.1 < 8,
        0 <= b.0 < 6 && 0 <= b.1 < 8,
    ensures
        swapped(swapped(c@, a, b), a, b) == c@,
{
    c.lemma_view_well_shaped();
    assert(swapped(swapped(c@, a, b), a, b) =~~= c@);
}

/// A grid that holds only colour ids still does after an exchange of two
/// stickers, and keeps its six faces of eight.
pub proof fn lemma_swap_keeps_colours(g: Grid, a: (int, int), b: (int, int))
    requires
        well_shaped(g),
        holds_colours(g),
        0 <= a.0 < 6 && 0 <= a.1 < 8,
        0 <= b.0 < 6 && 0 <= b.1 < 8,
    ensures
        well_shaped(swapped(g, a, b)),
        holds_colours(swapped(g, a, b)),
{
}

/// A grid that holds only colour ids still does after a quarter-turn, and
/// keeps its six faces of eight.
pub proof fn lemma_turn_keeps_colours(g: Grid, face: Face, dir: Direction)
    requires
        well_shaped(g),
        holds_colours(g),
    ensures
        well_shaped(turned(g, face, dir)),
        holds_colours(turned(g, face, dir)),
{
    let t = turned(g, face, dir);
    assert forall|f: int, p: int| 0 <= f < 6 && 0 <= p < 8 implies #[trigger] t[f][p] < 6 by {
        lemma_origin(face, dir, f, p);
    }
}

/// A grid that holds only colour ids still does after any sequence of
/// quarter-turns, and keeps its six faces of eight.
pub proof fn lemma_turns_keep_colours(g: Grid, turns: Seq<Rotation>)
    requires
        well_shaped(g),
        holds_colours(g),
    ensures
        well_shaped(turned_all(g, turns)),
        holds_colours(turned_all(g, turns)),
    decreases turns.len(),
{
    if turns.len() > 0 {
        lemma_turns_keep_colours(g, turns.drop_last());
        lemma_turn_keeps_colours(
            turned_all(g, turns.drop_last()),
            turns.last().face,
            turns.last().dir,
        );
    }
}

} // verus!

//! The cube itself: six packed words, one per face, and the operations
//! that turn it.
use crate::color::Color;
use crate::cycle::{
    lemma_exchanges_make_the_turn, lemma_three_swaps, partly_cycled, rows_swapped, spun,
};
use crate::grid::{
    along, holds_colours, quarter, ring, solved_grid, swapped, turned, turned_all, well_shaped,
    Grid,
};
use crate::lanes::{
    get_lane, lane, lane_at, lemma_lanes_determine_word, lemma_xor_exchange, spin, xor_lane,
};
use crate::turn::{Direction, Face, Rotation};
use vstd::prelude::*;

verus! {

/// A 3x3 cube. Each face is one word of eight 4-bit stickers; the centre
/// sticker is implied by the face and not stored.
///
/// Every sticker of a cube holds one of the six colour ids. The type keeps
/// that as its invariant, and each operation says it of what it leaves.
#[derive(Debug, Eq)]
pub struct Cube {
    faces: [u32; 6],
}

impl View for Cube {
    type V = Grid;

    /// The stickers of the cube, face by face and position by position.
    closed spec fn view(&self) -> Grid {
        Seq::new(6, |f: int| Seq::new(8, |p: int| lane_at(self.faces[f], p)))
    }
}

impl Cube {
    /// The grid of a cube has six faces of eight stickers.
    pub proof fn lemma_view_well_shaped(self)
        ensures
            well_shaped(self@),
    {
    }

    /// Cubes with the same stickers are the same cube.
    pub proof fn lemma_view_is_faithful(self, other: Cube)
        requires
            self@ == other@,
        ensures
            self == other,
    {
        assert forall|f: int| 0 <= f < 6 implies self.faces[f] == other.faces[f] by {
            let a = self.faces[f];
            let b = other.faces[f];
            assert forall|p: int| 0 <= p < 8 implies lane_at(a, p) == lane_at(b, p) by {
                assert(other@[f][p] == lane_at(b, p));
            }
            assert(lane_at(a, 0) == lane_at(b, 0) && lane_at(a, 1) == lane_at(b, 1));
            assert(lane_at(a, 2) == lane_at(b, 2) && lane_at(a, 3) == lane_at(b, 3));
            assert(lane_at(a, 4) == lane_at(b, 4) && lane_at(a, 5) == lane_at(b, 5));
            assert(lane_at(a, 6) == lane_at(b, 6) && lane_at(a, 7) == lane_at(b, 7));
            lemma_lanes_determine_word(self.faces[f], other.faces[f]);
        }
        assert(self.faces =~= other.faces);
    }

    #[verifier::type_invariant]
    spec fn stickers_are_colours(self) -> bool {
        forall|f: int, p: int|
            0 <= f < 6 && 0 <= p < 8 ==> #[trigger] lane_at(self.faces[f], p) < 6
    }
}

impl Default for Cube {
    /// The solved cube.
    fn default() -> (cube: Self)
        ensures
            cube@ == solved_grid(),
    {
        let faces: [u32; 6] = [0, 0x11111111, 0x22222222, 0x33333333, 0x44444444, 0x55555555];
        proof {
            assert forall|f: int, p: int| 0 <= f < 6 && 0 <= p < 8 implies #[trigger] lane_at(
                faces[f],
                p,
            ) == f by {
                lemma_solved_words(p as u32);
            }
            let g = Seq::new(6, |f: int| Seq::new(8, |p: int| lane_at(faces[f], p)));
            assert(g =~~= solved_grid());
        }
        Cube { faces }
    }
}

/// The word of each face of the solved cube holds the face's number in
/// every lane.
proof fn lemma_solved_words(p: u32)
    by (bit_vector)
    requires
        p < 8,
    ensures
        lane(0, p) == 0,
        lane(0x11111111, p) == 1,
        lane(0x22222222, p) == 2,
        lane(0x33333333, p) == 3,
        lane(0x44444444, p) == 4,
        lane(0x55555555, p) == 5,
{
}

impl Clone for Cube {
    fn clone(&self) -> (copy: Self)
        ensures
            copy == *self,
    {
        proof {
            use_type_invariant(self);
        }
        Cube { faces: self.faces }
    }
}

impl PartialEq for Cube {
    /// Two cubes are equal when every sticker is.
    fn eq(&self, other: &Self) -> (same: bool) {
        let mut i: usize = 0;
        while i < 6
            invariant
                i <= 6,
                forall|f: int| 0 <= f < i ==> self.faces[f] == other.faces[f],
            decreases 6 - i,
        {
            if self.faces[i] != other.faces[i] {
                proof {
                    if self@ == other@ {
                        self.lemma_view_is_faithful(*other);
                    }
                }
                return false;
            }
            i += 1;
        }
        assert(self.faces =~= other.faces);
        true
    }
}

impl vstd::std_specs::cmp::PartialEqSpecImpl for Cube {
    open spec fn obeys_eq_spec() -> bool {
        true
    }

    open spec fn eq_spec(&self, other: &Self) -> bool {
        self@ == other@
    }
}

impl Cube {
    /// Whether every face is covered by its own colour.
    pub fn is_solved(&self) -> (solved: bool)
        ensures
            solved <==> self@ == solved_grid(),
    {
        *self == Cube::default()
    }

    /// The cube after a quarter-turn, leaving this one as it is.
    pub fn rotate(&self, rotation: Rotation) -> (after: Self)
        ensures
            after@ == turned(self@, rotation.face, rotation.dir),
            holds_colours(after@),
    {
        let mut copy = self.clone();
        copy.rotate_in_place(rotation);
        copy
    }

    /// Turns one face by a quarter.
    pub fn rotate_in_place(&mut self, rotation: Rotation)
        ensures
            final(self)@ == turned(old(self)@, rotation.face, rotation.dir),
            holds_colours(final(self)@),
    {
        proof {
            use_type_invariant(&*self);
        }
        let face_index = rotation.face.index();
        let clockwise = rotation.dir == Direction::Cw;
        let word = spin(self.faces[face_index], clockwise);
        proof {
            assert forall|p: int| 0 <= p < 8 implies #[trigger] lane_at(word, p) == lane_at(
                self.faces[face_index as int],
                along(p, quarter(rotation.dir)),
            ) by {}
        }
        self.faces[face_index] = word;
        let ghost start = self@;
        proof {
            assert(start =~~= spun(old(self)@, rotation.face, rotation.dir));
        }

        let emb = adjacent_rows(rotation.face);
        let mut i: usize = 0;
        while i < 3
            invariant
                i <= 3,
                clockwise == (rotation.dir == Direction::Cw),
                forall|k: int|
                    0 <= k < 4 ==> (#[trigger] emb[k]).0 == ring(rotation.face, k).0 && emb[k].1
                        == ring(rotation.face, k).1,
                self@ == partly_cycled(start, rotation.face, rotation.dir, i as int),
            decreases 3 - i,
        {
            let k = if clockwise {
                2 - i
            } else {
                i
            };
            self.swap_rows(emb[k], emb[k + 1]);
            i += 1;
        }
        proof {
            old(self).lemma_view_well_shaped();
            lemma_exchanges_make_the_turn(old(self)@, rotation.face, rotation.dir);
            use_type_invariant(&*self);
        }
    }

    /// The cube after the given quarter-turns, first to last, leaving this
    /// one as it is.
    pub fn rotate_many(&self, rotations: &[Rotation]) -> (after: Self)
        ensures
            after@ == turned_all(self@, rotations@),
            holds_colours(after@),
    {
        let mut copy = self.clone();
        copy.rotate_many_in_place(rotations);
        copy
    }

    /// Applies the given quarter-turns one after the other, first to last.
    pub fn rotate_many_in_place(&mut self, rotations: &[Rotation])
        ensures
            final(self)@ == turned_all(old(self)@, rotations@),
            holds_colours(final(self)@),
    {
        let mut i: usize = 0;
        while i < rotations.len()
            invariant
                i <= rotations@.len(),
                self@ == turned_all(old(self)@, rotations@.take(i as int)),
            decreases rotations@.len() - i,
        {
            self.rotate_in_place(rotations[i]);
            proof {
                assert(rotations@.take(i + 1).drop_last() == rotations@.take(i as int));
            }
            i += 1;
        }
        proof {
            assert(rotations@.take(i as int) == rotations@);
            use_type_invariant(&*self);
        }
    }

    /// Exchanges the stickers at two addresses, each given as the number
    /// of a face and a position on it. The two may be one address.
    #[inline]
    pub fn swap_stickers(&mut self, left: (usize, usize), right: (usize, usize))
        requires
            left.0 < 6,
            left.1 < 8,
            right.0 < 6,
            right.1 < 8,
        ensures
            final(self)@ == swapped(
                old(self)@,
                (left.0 as int, left.1 as int),
                (right.0 as int, right.1 as int),
            ),
            holds_colours(final(self)@),
    {
        proof {
            use_type_invariant(&*self);
        }
        let (face_left, sticker_left_i) = left;
        let (face_right, sticker_right_i) = right;

        let sticker_left = get_lane(self.faces[face_left], sticker_left_i);
        let sticker_right = get_lane(self.faces[face_right], sticker_right_i);

        let stickers_swap = sticker_left ^ sticker_right;
        proof {
            lemma_xor_exchange(sticker_left, sticker_right);
        }

        let word_left = xor_lane(self.faces[face_left], sticker_left_i, stickers_swap);
        proof {
            assert forall|p: int| 0 <= p < 8 implies #[trigger] lane_at(word_left, p) == (if p
                == sticker_left_i {
                sticker_right as nat
            } else {
                old(self)@[face_left as int][p]
            }) by {}
            assert(old(self)@[face_right as int][sticker_right_i as int] == sticker_right);
        }
        self.faces[face_left] = word_left;
        let ghost mid = self@;
        let word_right = xor_lane(self.faces[face_right], sticker_right_i, stickers_swap);
        proof {
            assert forall|p: int| 0 <= p < 8 implies #[trigger] lane_at(word_right, p) == (if p
                == sticker_right_i {
                sticker_left as nat
            } else {
                mid[face_right as int][p]
            }) by {}
            assert(old(self)@[face_left as int][sticker_left_i as int] == sticker_left);
        }
        self.faces[face_right] = word_right;
        proof {
            assert(self@ =~~= swapped(
                old(self)@,
                (left.0 as int, left.1 as int),
                (right.0 as int, right.1 as int),
            ));
        }
    }

    /// Exchanges two rows of three stickers on different faces, each row
    /// given by its face and the position where it starts.
    fn swap_rows(&mut self, left: (usize, usize), right: (usize, usize))
        requires
            left.0 < 6,
            left.1 < 8,
            right.0 < 6,
            right.1 < 8,
            left.0 != right.0,
        ensures
            final(self)@ == rows_swapped(
                old(self)@,
                (left.0 as int, left.1 as int),
                (right.0 as int, right.1 as int),
            ),
    {
        let (face_l, sticker_l) = left;
        let (face_r, sticker_r) = right;
        self.swap_stickers((face_l, sticker_l), (face_r, sticker_r));
        self.swap_stickers((face_l, (sticker_l + 1) % 8), (face_r, (sticker_r + 1) % 8));
        self.swap_stickers((face_l, (sticker_l + 2) % 8), (face_r, (sticker_r + 2) % 8));
        proof {
            old(self).lemma_view_well_shaped();
            lemma_three_swaps(
                old(self)@,
                (left.0 as int, left.1 as int),
                (right.0 as int, right.1 as int),
            );
        }
    }

    /// The colour of the sticker at `position` of `face`.
    pub fn sticker(&self, face: Face, position: usize) -> (colour: Color)
        requires
            position < 8,
        ensures
            colour.id() == self@[face.id()][position as int],
    {
        proof {
            use_type_invariant(self);
        }
        let n = get_lane(self.faces[face.index()], position);
        assert(n == lane_at(self.faces[face.id()], position as int));
        Color::from_u32(n).unwrap()
    }

    /// The colour of the centre of `face` on every cube. It is not stored:
    /// no turn moves it.
    pub fn center(face: Face) -> (colour: Color)
        ensures
            colour.id() == face.id(),
    {
        match face {
            Face::U => Color::White,
            Face::L => Color::Green,
            Face::F => Color::Red,
            Face::R => Color::Blue,
            Face::B => Color::Orange,
            Face::D => Color::Yellow,
        }
    }
}

/// The ring of rows around `face`, in the order in which a turn against
/// the clock hands them on.
fn adjacent_rows(face: Face) -> (rows: [(usize, usize); 4])
    ensures
        forall|k: int|
            0 <= k < 4 ==> (#[trigger] rows[k]).0 == ring(face, k).0 && rows[k].1 == ring(
                face,
                k,
            ).1,
{
    match face {
        Face::U => [(4, 0), (3, 0), (2, 0), (1, 0)],
        Face::L => [(0, 6), (2, 6), (5, 6), (4, 2)],
        Face::F => [(3, 6), (5, 0), (1, 2), (0, 4)],
        Face::R => [(0, 2), (4, 6), (5, 2), (2, 2)],
        Face::B => [(0, 0), (1, 6), (5, 4), (3, 2)],
        Face::D => [(2, 4), (3, 4), (4, 4), (1, 4)],
    }
}

} // verus!

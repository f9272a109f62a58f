//! Faces, directions and quarter-turns drawn at random, for scrambling.
use crate::turn::{Direction, Face, Rotation};
use rand::Rng;
use vstd::prelude::*;

verus! {

/// `Rng::gen_range` of the crate `rand`, called on the generator of the
/// current thread with the range from zero up to, and without, `bound`.
///
/// Trusted: the number drawn lies in the range. `gen_range` panics on an
/// empty range, so `bound` is not zero.
#[verifier::external_body]
fn draw_below(bound: u32) -> (n: u32)
    requires
        bound > 0,
    ensures
        n < bound,
{
    rand::thread_rng().gen_range(0..bound)
}

impl Face {
    /// The face that a number drawn below six stands for; any other number
    /// stands for the last face.
    pub fn from_draw(n: u32) -> (face: Face)
        ensures
            face.id() == (if n < 6 {
                n as int
            } else {
                5
            }),
    {
        match n {
            0 => Face::U,
            1 => Face::L,
            2 => Face::F,
            3 => Face::R,
            4 => Face::B,
            _ => Face::D,
        }
    }

    /// A face drawn at random, each as likely as the others.
    pub fn sample() -> Face {
        Face::from_draw(draw_below(6))
    }
}

impl Direction {
    /// The direction that a number drawn below two stands for: with the
    /// clock for zero, against it for any other number.
    pub fn from_draw(n: u32) -> (dir: Direction)
        ensures
            dir == (if n == 0 {
                Direction::Cw
            } else {
                Direction::Ccw
            }),
    {
        match n {
            0 => Direction::Cw,
            _ => Direction::Ccw,
        }
    }

    /// A direction drawn at random, each as likely as the other.
    pub fn sample() -> Direction {
        Direction::from_draw(draw_below(2))
    }
}

impl Rotation {
    /// A quarter-turn drawn at random: its face and its direction are
    /// drawn apart.
    pub fn sample() -> Rotation {
        let face = Face::sample();
        let dir = Direction::sample();
        Rotation { face, dir }
    }
}

} // verus!

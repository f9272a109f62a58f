//! Faces, turn directions and quarter-turns.
use vstd::prelude::*;

verus! {

/// One of the six sides of the cube.
#[derive(Debug, Clone, Copy)]
pub enum Face {
    U,
    L,
    F,
    R,
    B,
    D,
}

impl Face {
    /// The fixed number of the face, which is also the colour id that
    /// covers it on a solved cube.
    pub open spec fn id(self) -> int {
        match self {
            Face::U => 0,
            Face::L => 1,
            Face::F => 2,
            Face::R => 3,
            Face::B => 4,
            Face::D => 5,
        }
    }

    /// The face's number as an array index.
    pub fn index(self) -> (i: usize)
        ensures
            i == self.id(),
    {
        match self {
            Face::U => 0,
            Face::L => 1,
            Face::F => 2,
            Face::R => 3,
            Face::B => 4,
            Face::D => 5,
        }
    }
}

/// The sense of a quarter-turn, as seen when facing the turning side from
/// outside the cube.
#[derive(Debug, Clone, Copy, PartialEq, Eq, Structural)]
pub enum Direction {
    Cw,
    Ccw,
}

/// A quarter-turn of one face.
#[derive(Debug, Clone, Copy)]
pub struct Rotation {
    pub face: Face,
    pub dir: Direction,
}

impl Rotation {
    /// The quarter-turn of `face` in direction `dir`.
    pub fn new(face: Face, dir: Direction) -> (r: Self)
        ensures
            r.face == face,
            r.dir == dir,
    {
        Rotation { face, dir }
    }

    /// The turn of the same face in the opposite sense.
    pub open spec fn reversed(self) -> Rotation {
        Rotation {
            face: self.face,
            dir: match self.dir {
                Direction::Cw => Direction::Ccw,
                Direction::Ccw => Direction::Cw,
            },
        }
    }
}

} // verus!

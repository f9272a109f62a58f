use rubiks::Color::{self, Blue, Green, Orange, Red, White, Yellow};
use rubiks::{Cube, Direction, Face, Rotation};

const FACES: [Face; 6] = [Face::U, Face::L, Face::F, Face::R, Face::B, Face::D];
const DIRECTIONS: [Direction; 2] = [Direction::Cw, Direction::Ccw];

fn all_rotations() -> Vec<Rotation> {
    let mut all = Vec::new();
    for face in FACES {
        for dir in DIRECTIONS {
            all.push(Rotation::new(face, dir));
        }
    }
    all
}

fn flipped(r: Rotation) -> Rotation {
    let dir = match r.dir {
        Direction::Cw => Direction::Ccw,
        Direction::Ccw => Direction::Cw,
    };
    Rotation::new(r.face, dir)
}

fn scrambled() -> Cube {
    Cube::default().rotate_many(&[
        Rotation::new(Face::F, Direction::Cw),
        Rotation::new(Face::U, Direction::Ccw),
        Rotation::new(Face::L, Direction::Cw),
        Rotation::new(Face::D, Direction::Cw),
        Rotation::new(Face::B, Direction::Ccw),
        Rotation::new(Face::R, Direction::Cw),
        Rotation::new(Face::U, Direction::Cw),
    ])
}

fn ring_of(cube: &Cube, face: Face) -> Vec<Color> {
    (0..8).map(|p| cube.sticker(face, p)).collect()
}

#[test]
fn solved_faces_show_their_own_colour() {
    let c = Cube::default();
    let colours = [
        Color::White,
        Color::Green,
        Color::Red,
        Color::Blue,
        Color::Orange,
        Color::Yellow,
    ];
    for (face, colour) in FACES.into_iter().zip(colours) {
        assert_eq!(ring_of(&c, face), vec![colour; 8]);
        assert_eq!(Cube::center(face), colour);
    }
}

#[test]
fn right_clockwise_moves_the_front_column_up() {
    let c = Cube::default().rotate(Rotation::new(Face::R, Direction::Cw));
    assert_eq!(
        ring_of(&c, Face::U),
        vec![White, White, Red, Red, Red, White, White, White]
    );
    assert_eq!(
        ring_of(&c, Face::B),
        vec![White, Orange, Orange, Orange, Orange, Orange, White, White]
    );
    assert_eq!(
        ring_of(&c, Face::D),
        vec![Yellow, Yellow, Orange, Orange, Orange, Yellow, Yellow, Yellow]
    );
    assert_eq!(
        ring_of(&c, Face::F),
        vec![Red, Red, Yellow, Yellow, Yellow, Red, Red, Red]
    );
    assert_eq!(ring_of(&c, Face::R), vec![Blue; 8]);
    assert_eq!(ring_of(&c, Face::L), vec![Green; 8]);
}

#[test]
fn up_counter_clockwise_hands_rows_from_back_to_left() {
    let c = Cube::default().rotate(Rotation::new(Face::U, Direction::Ccw));
    assert_eq!(
        ring_of(&c, Face::B),
        vec![Blue, Blue, Blue, Orange, Orange, Orange, Orange, Orange]
    );
    assert_eq!(
        ring_of(&c, Face::R),
        vec![Red, Red, Red, Blue, Blue, Blue, Blue, Blue]
    );
    assert_eq!(
        ring_of(&c, Face::F),
        vec![Green, Green, Green, Red, Red, Red, Red, Red]
    );
    assert_eq!(
        ring_of(&c, Face::L),
        vec![Orange, Orange, Orange, Green, Green, Green, Green, Green]
    );
    assert_eq!(ring_of(&c, Face::U), vec![White; 8]);
}

#[test]
fn a_turn_moves_the_face_itself_two_places() {
    let mut c = Cube::default();
    c.swap_stickers((2, 0), (5, 7));
    c.swap_stickers((2, 1), (1, 7));

    let cw = c.rotate(Rotation::new(Face::F, Direction::Cw));
    assert_eq!(
        ring_of(&cw, Face::F),
        vec![Red, Red, Yellow, Green, Red, Red, Red, Red]
    );

    let ccw = c.rotate(Rotation::new(Face::F, Direction::Ccw));
    assert_eq!(
        ring_of(&ccw, Face::F),
        vec![Red, Red, Red, Red, Red, Red, Yellow, Green]
    );
}

#[test]
fn four_equal_turns_restore_the_cube() {
    for start in [Cube::default(), scrambled()] {
        for r in all_rotations() {
            let mut c = start.clone();
            for _ in 0..4 {
                c.rotate_in_place(r);
            }
            assert_eq!(c, start);
        }
    }
}

#[test]
fn a_turn_and_its_reverse_cancel() {
    for start in [Cube::default(), scrambled()] {
        for r in all_rotations() {
            assert_eq!(start.rotate(r).rotate(flipped(r)), start);
        }
    }
}

#[test]
fn no_single_turn_keeps_the_cube_solved() {
    assert!(Cube::default().is_solved());
    for r in all_rotations() {
        assert!(!Cube::default().rotate(r).is_solved());
    }
}

#[test]
fn a_sequence_may_be_split_anywhere() {
    let turns = all_rotations();
    let whole = scrambled().rotate_many(&turns);
    for cut in 0..=turns.len() {
        let (front, rest) = turns.split_at(cut);
        assert_eq!(scrambled().rotate_many(front).rotate_many(rest), whole);
    }
}

#[test]
fn no_turns_change_nothing() {
    let start = scrambled();
    assert_eq!(start.rotate_many(&[]), start);
    let mut c = start.clone();
    c.rotate_many_in_place(&[]);
    assert_eq!(c, start);
}

#[test]
fn rotate_leaves_its_input_alone() {
    let start = scrambled();
    let kept = start.clone();
    let r = Rotation::new(Face::L, Direction::Ccw);
    let after = start.rotate(r);
    assert_eq!(start, kept);
    let mut in_place = start.clone();
    in_place.rotate_in_place(r);
    assert_eq!(after, in_place);

    let turns = [r, Rotation::new(Face::D, Direction::Cw)];
    let after = start.rotate_many(&turns);
    assert_eq!(start, kept);
    let mut in_place = start.clone();
    in_place.rotate_many_in_place(&turns);
    assert_eq!(after, in_place);
    assert_eq!(after, start.rotate(turns[0]).rotate(turns[1]));
}

#[test]
fn swapping_twice_restores_the_cube() {
    let pairs = [
        ((0, 0), (5, 7)),
        ((2, 3), (2, 4)),
        ((1, 6), (4, 6)),
        ((3, 5), (3, 5)),
    ];
    for (a, b) in pairs {
        let start = scrambled();
        let mut c = start.clone();
        c.swap_stickers(a, b);
        c.swap_stickers(a, b);
        assert_eq!(c, start);
    }
}

#[test]
fn swapping_a_sticker_with_itself_changes_nothing() {
    let start = scrambled();
    let mut c = start.clone();
    c.swap_stickers((4, 2), (4, 2));
    assert_eq!(c, start);
}

#[test]
fn swapping_exchanges_just_the_two_stickers() {
    let mut c = Cube::default();
    c.swap_stickers((0, 7), (5, 2));
    for face in FACES {
        for p in 0..8 {
            let want = match (face, p) {
                (Face::U, 7) => Color::Yellow,
                (Face::D, 2) => Color::White,
                _ => Cube::default().sticker(face, p),
            };
            assert_eq!(c.sticker(face, p), want);
        }
    }
}

#[test]
fn turns_keep_eight_stickers_of_each_colour() {
    let mut c = scrambled();
    for r in all_rotations() {
        c.rotate_in_place(r);
        let mut count = [0usize; 6];
        for face in FACES {
            for p in 0..8 {
                count[c.sticker(face, p) as usize] += 1;
            }
        }
        assert_eq!(count, [8; 6]);
    }
}

#[test]
fn equal_cubes_have_equal_stickers() {
    let a = scrambled();
    let b = scrambled();
    assert_eq!(a, b);
    let mut c = scrambled();
    c.swap_stickers((0, 0), (1, 0));
    if c.sticker(Face::U, 0) != a.sticker(Face::U, 0) {
        assert_ne!(a, c);
    } else {
        assert_eq!(a, c);
    }
}

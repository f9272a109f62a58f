use rubiks::{Cube, Direction, Face, Rotation};

#[test]
fn is_solved() {
    let mut c = Cube::default();
    assert!(c.is_solved());

    c.rotate_in_place(Rotation::new(Face::B, Direction::Ccw));
    assert!(!c.is_solved());

    c.rotate_in_place(Rotation::new(Face::B, Direction::Cw));
    assert!(c.is_solved());
}

#[test]
fn swap_stickers() {
    // reflexive
    let mut a = Cube::default();
    let mut b = Cube::default();
    a.swap_stickers((0, 1), (3, 4));
    b.swap_stickers((3, 4), (0, 1));
    assert_eq!(a, b);

    // inverse
    let mut a = Cube::default();
    a.swap_stickers((0, 1), (3, 4));
    a.swap_stickers((3, 4), (0, 1));
    assert_eq!(a, Cube::default());
}

#[test]
fn rotate_order() {
    let mut c = Cube::default();

    let p = [
        Rotation::new(Face::R, Direction::Cw),
        Rotation::new(Face::U, Direction::Ccw),
        Rotation::new(Face::R, Direction::Ccw),
        Rotation::new(Face::U, Direction::Cw),
    ];
    for _ in 0..6 {
        c.rotate_many_in_place(&p);
    }
    assert_eq!(c, Cube::default());

    let t_perm = [
        Rotation::new(Face::R, Direction::Cw),
        Rotation::new(Face::U, Direction::Cw),
        Rotation::new(Face::R, Direction::Ccw),
        Rotation::new(Face::U, Direction::Ccw),
        Rotation::new(Face::R, Direction::Ccw),
        Rotation::new(Face::F, Direction::Cw),
        Rotation::new(Face::R, Direction::Cw),
        Rotation::new(Face::R, Direction::Cw),
        Rotation::new(Face::U, Direction::Ccw),
        Rotation::new(Face::R, Direction::Ccw),
        Rotation::new(Face::U, Direction::Ccw),
        Rotation::new(Face::R, Direction::Cw),
        Rotation::new(Face::U, Direction::Cw),
        Rotation::new(Face::R, Direction::Ccw),
        Rotation::new(Face::F, Direction::Ccw),
    ];
    for _ in 0..2 {
        c.rotate_many_in_place(&t_perm);
        println!("{}", c.render());
    }
    assert_eq!(c, Cube::default());

    let back_t_perm = [
        Rotation::new(Face::L, Direction::Ccw),
        Rotation::new(Face::D, Direction::Ccw),
        Rotation::new(Face::L, Direction::Cw),
        Rotation::new(Face::D, Direction::Cw),
        Rotation::new(Face::L, Direction::Cw),
        Rotation::new(Face::B, Direction::Ccw),
        Rotation::new(Face::L, Direction::Ccw),
        Rotation::new(Face::L, Direction::Ccw),
        Rotation::new(Face::D, Direction::Cw),
        Rotation::new(Face::L, Direction::Cw),
        Rotation::new(Face::D, Direction::Cw),
        Rotation::new(Face::L, Direction::Ccw),
        Rotation::new(Face::D, Direction::Ccw),
        Rotation::new(Face::L, Direction::Cw),
        Rotation::new(Face::B, Direction::Cw),
    ];
    for _ in 0..2 {
        c.rotate_many_in_place(&back_t_perm);
    }
    assert_eq!(c, Cube::default());
}

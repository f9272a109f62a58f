use rubiks::{Color, Cube, Direction, Face, Rotation};

fn letters() -> [String; 6] {
    ["W", "G", "R", "B", "O", "Y"].map(String::from)
}

#[test]
fn colour_numbers() {
    assert_eq!(Color::from_u32(0), Some(Color::White));
    assert_eq!(Color::from_u32(1), Some(Color::Green));
    assert_eq!(Color::from_u32(2), Some(Color::Red));
    assert_eq!(Color::from_u32(3), Some(Color::Blue));
    assert_eq!(Color::from_u32(4), Some(Color::Orange));
    assert_eq!(Color::from_u32(5), Some(Color::Yellow));
    assert_eq!(Color::from_u32(6), None);
    assert_eq!(Color::from_u32(u32::MAX), None);
    for n in 0..6u32 {
        assert_eq!(Color::from_u32(n).map(Color::index), Some(n as usize));
    }
}

#[test]
fn abbreviations_with_and_without_colour() {
    colored::control::set_override(true);
    assert_eq!(Color::White.to_abbr(), "\x1B[37mW\x1B[0m");
    assert_eq!(Color::Green.to_abbr(), "\x1B[32mG\x1B[0m");
    assert_eq!(Color::Red.to_abbr(), "\x1B[31mR\x1B[0m");
    assert_eq!(Color::Blue.to_abbr(), "\x1B[34mB\x1B[0m");
    assert_eq!(Color::Yellow.to_abbr(), "\x1B[33mY\x1B[0m");
    let orange = Color::Orange.to_abbr();
    assert!(orange.starts_with("\x1B["));
    assert!(orange.ends_with("mO\x1B[0m"));

    colored::control::set_override(false);
    assert_eq!(Color::White.to_abbr(), "W");
    assert_eq!(Color::Green.to_abbr(), "G");
    assert_eq!(Color::Red.to_abbr(), "R");
    assert_eq!(Color::Blue.to_abbr(), "B");
    assert_eq!(Color::Orange.to_abbr(), "O");
    assert_eq!(Color::Yellow.to_abbr(), "Y");

    let plain = Cube::default().render();
    assert_eq!(plain, Cube::default().render_with(&letters()));
    colored::control::unset_override();
}

#[test]
fn the_solved_cube_drawn() {
    let want = "        +-------+\n\
\x20       | W W W |\n\
\x20       | W W W |\n\
\x20       | W W W |\n\
+-------+-------+-------+-------+\n\
| G G G | R R R | B B B | O O O |\n\
| G G G | R R R | B B B | O O O |\n\
| G G G | R R R | B B B | O O O |\n\
+-------+-------+-------+-------+\n\
\x20       | Y Y Y |\n\
\x20       | Y Y Y |\n\
\x20       | Y Y Y |\n\
\x20       +-------+";
    assert_eq!(Cube::default().render_with(&letters()), want);
}

#[test]
fn positions_run_clockwise_from_the_top_left() {
    let mut c = Cube::default();
    c.swap_stickers((0, 0), (1, 0));
    c.swap_stickers((0, 3), (2, 0));
    c.swap_stickers((0, 5), (3, 0));
    c.swap_stickers((0, 7), (4, 0));
    c.swap_stickers((0, 6), (5, 0));
    let want = "        +-------+\n\
\x20       | G W W |\n\
\x20       | O W R |\n\
\x20       | Y B W |\n\
+-------+-------+-------+-------+\n\
| W G G | W R R | W B B | W O O |\n\
| G G G | R R R | B B B | O O O |\n\
| G G G | R R R | B B B | O O O |\n\
+-------+-------+-------+-------+\n\
\x20       | W Y Y |\n\
\x20       | Y Y Y |\n\
\x20       | Y Y Y |\n\
\x20       +-------+";
    assert_eq!(c.render_with(&letters()), want);
}

#[test]
fn a_turned_cube_drawn() {
    let c = Cube::default().rotate(Rotation::new(Face::R, Direction::Cw));
    let want = "        +-------+\n\
\x20       | W W R |\n\
\x20       | W W R |\n\
\x20       | W W R |\n\
+-------+-------+-------+-------+\n\
| G G G | R R Y | B B B | W O O |\n\
| G G G | R R Y | B B B | W O O |\n\
| G G G | R R Y | B B B | W O O |\n\
+-------+-------+-------+-------+\n\
\x20       | Y Y O |\n\
\x20       | Y Y O |\n\
\x20       | Y Y O |\n\
\x20       +-------+";
    assert_eq!(c.render_with(&letters()), want);
}

#[test]
fn any_six_strings_serve_as_palette() {
    let palette = ["0", "11", "", "three", "4", "5"].map(String::from);
    let text = Cube::default().render_with(&palette);
    let lines: Vec<&str> = text.lines().collect();
    assert_eq!(lines.len(), 13);
    assert_eq!(lines[1], "        | 0 0 0 |");
    assert_eq!(lines[5], "| 11 11 11 |    | three three three | 4 4 4 |");
    assert_eq!(lines[11], "        | 5 5 5 |");
}

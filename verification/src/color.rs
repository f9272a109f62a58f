//! The six sticker colours and the short text that stands for each.
use colored::Colorize;
use vstd::prelude::*;

verus! {

/// The colour of a sticker.
#[derive(Debug, Clone, Copy, PartialEq, Eq, Structural)]
pub enum Color {
    White,
    Green,
    Red,
    Blue,
    Orange,
    Yellow,
}

/// `text` between the escape sequence that selects the display attribute
/// `code` and the one that resets all attributes.
pub open spec fn escaped(code: Seq<char>, text: Seq<char>) -> Seq<char> {
    "\x1B["@ + code + "m"@ + text + "\x1B[0m"@
}

/// Whether `s` is a way to show `text` in the colour with foreground code
/// `code`: the text alone, where colour is switched off; the text between
/// the two escape sequences, where it is on; the text and the reset
/// sequence alone, where it is switched off while the text is written.
pub open spec fn shows(s: Seq<char>, code: Seq<char>, text: Seq<char>) -> bool {
    s == text || s == escaped(code, text) || s == text + "\x1B[0m"@
}

/// `Colorize::color` of the crate `colored`, called on `text` with a colour
/// name, and the result formatted as a `String`.
///
/// Trusted: `colored` decides whether to colour from variables of the
/// process, from the terminal and from a switch that any thread may set,
/// and asks again before it writes the first escape sequence. The result
/// shows `text` in the named colour's foreground code; the codes of five
/// names are stated. A text shorter than the reset sequence holds none
/// that `colored` would rewrite.
#[verifier::external_body]
fn tint(text: &str, name: &str) -> (s: String)
    requires
        text@.len() < 4,
    ensures
        name@ == "white"@ ==> shows(s@, "37"@, text@),
        name@ == "green"@ ==> shows(s@, "32"@, text@),
        name@ == "red"@ ==> shows(s@, "31"@, text@),
        name@ == "blue"@ ==> shows(s@, "34"@, text@),
        name@ == "yellow"@ ==> shows(s@, "33"@, text@),
{
    text.color(name).to_string()
}

/// `Colorize::truecolor` of the crate `colored`, called on `text` with the
/// three parts of a colour, and the result formatted as a `String`.
///
/// Trusted: as for a named colour, but the code depends on what the
/// terminal is said to support, so only its place is stated.
#[verifier::external_body]
fn tint_rgb(text: &str, r: u8, g: u8, b: u8) -> (s: String)
    requires
        text@.len() < 4,
    ensures
        exists|code: Seq<char>| #[trigger] shows(s@, code, text@),
{
    text.truecolor(r, g, b).to_string()
}

impl Color {
    /// The number that stands for the colour in a sticker.
    pub open spec fn id(self) -> nat {
        match self {
            Color::White => 0,
            Color::Green => 1,
            Color::Red => 2,
            Color::Blue => 3,
            Color::Orange => 4,
            Color::Yellow => 5,
        }
    }

    /// The colour that a number stands for, if any.
    pub open spec fn with_id(n: nat) -> Option<Color> {
        if n == 0 {
            Some(Color::White)
        } else if n == 1 {
            Some(Color::Green)
        } else if n == 2 {
            Some(Color::Red)
        } else if n == 3 {
            Some(Color::Blue)
        } else if n == 4 {
            Some(Color::Orange)
        } else if n == 5 {
            Some(Color::Yellow)
        } else {
            None
        }
    }

    /// The colour's number as an index.
    pub fn index(self) -> (i: usize)
        ensures
            i == self.id(),
    {
        match self {
            Color::White => 0,
            Color::Green => 1,
            Color::Red => 2,
            Color::Blue => 3,
            Color::Orange => 4,
            Color::Yellow => 5,
        }
    }

    /// The colour that `n` stands for: one for each number below six, none
    /// for any other.
    pub fn from_u32(n: u32) -> (c: Option<Color>)
        ensures
            c == Color::with_id(n as nat),
            c is Some <==> n < 6,
            c matches Some(colour) ==> colour.id() == n,
    {
        match n {
            0 => Some(Color::White),
            1 => Some(Color::Green),
            2 => Some(Color::Red),
            3 => Some(Color::Blue),
            4 => Some(Color::Orange),
            5 => Some(Color::Yellow),
            _ => None,
        }
    }

    /// The capital letter that names the colour.
    pub open spec fn letter(self) -> Seq<char> {
        match self {
            Color::White => "W"@,
            Color::Green => "G"@,
            Color::Red => "R"@,
            Color::Blue => "B"@,
            Color::Orange => "O"@,
            Color::Yellow => "Y"@,
        }
    }

    /// The foreground code of the colour, where it has one of its own.
    /// Orange has none: it is shown by its parts.
    pub open spec fn code(self) -> Option<Seq<char>> {
        match self {
            Color::White => Some("37"@),
            Color::Green => Some("32"@),
            Color::Red => Some("31"@),
            Color::Blue => Some("34"@),
            Color::Orange => None,
            Color::Yellow => Some("33"@),
        }
    }

    /// Whether `s` is a way to write the colour: its letter, shown in the
    /// colour's own code or, for orange, in some code.
    pub open spec fn is_abbr(self, s: Seq<char>) -> bool {
        match self.code() {
            Some(code) => shows(s, code, self.letter()),
            None => exists|code: Seq<char>| #[trigger] shows(s, code, self.letter()),
        }
    }

    /// The colour's letter, coloured where the terminal takes colour.
    pub fn to_abbr(&self) -> (s: String)
        ensures
            self.is_abbr(s@),
    {
        proof {
            reveal_strlit("W");
            reveal_strlit("G");
            reveal_strlit("R");
            reveal_strlit("B");
            reveal_strlit("O");
            reveal_strlit("Y");
        }
        match self {
            Color::White => tint("W", "white"),
            Color::Green => tint("G", "green"),
            Color::Red => tint("R", "red"),
            Color::Blue => tint("B", "blue"),
            Color::Orange => {
                let s = tint_rgb("O", 255, 165, 0);
                proof {
                    let code = choose|code: Seq<char>| shows(s@, code, "O"@);
                    assert(shows(s@, code, Color::Orange.letter()));
                }
                s
            },
            Color::Yellow => tint("Y", "yellow"),
        }
    }
}

} // verus!

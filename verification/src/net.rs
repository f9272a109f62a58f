//! The cube drawn as text: its six faces unfolded into a cross, the upper
//! face on top, then the left, front, right and back faces side by side,
//! then the lower face.
use crate::color::Color;
use crate::cube::Cube;
use crate::grid::Grid;
use crate::turn::Face;
use vstd::prelude::*;
use vstd::string::StringExecFns;

verus! {

/// Three glyphs with a blank before, between and after them.
pub open spec fn cells(a: Seq<char>, b: Seq<char>, c: Seq<char>) -> Seq<char> {
    " "@ + a + " "@ + b + " "@ + c + " "@
}

/// One of the three lines of face `f`: the positions 0, 1, 2 on line 0,
/// the positions 7 and 3 on either side of the centre on line 1, the
/// positions 6, 5, 4 on line 2. `glyphs[n]` is what is written for colour
/// id `n`.
pub open spec fn face_line(g: Grid, glyphs: Seq<Seq<char>>, f: int, line: int) -> Seq<char> {
    if line == 0 {
        cells(glyphs[g[f][0] as int], glyphs[g[f][1] as int], glyphs[g[f][2] as int])
    } else if line == 1 {
        cells(glyphs[g[f][7] as int], glyphs[f], glyphs[g[f][3] as int])
    } else {
        cells(glyphs[g[f][6] as int], glyphs[g[f][5] as int], glyphs[g[f][4] as int])
    }
}

/// A line of the upper or lower face, set in under the front face.
pub open spec fn lone_line(g: Grid, glyphs: Seq<Seq<char>>, f: int, line: int) -> Seq<char> {
    "        |"@ + face_line(g, glyphs, f, line) + "|\n"@
}

/// The same line of the left, front, right and back faces, side by side.
pub open spec fn wide_line(g: Grid, glyphs: Seq<Seq<char>>, line: int) -> Seq<char> {
    "|"@ + face_line(g, glyphs, 1, line) + "|"@ + face_line(g, glyphs, 2, line) + "|"@
        + face_line(g, glyphs, 3, line) + "|"@ + face_line(g, glyphs, 4, line) + "|\n"@
}

/// The whole drawing: thirteen lines, the last without a line end.
pub open spec fn net_text(g: Grid, glyphs: Seq<Seq<char>>) -> Seq<char> {
    "        +-------+\n"@ + lone_line(g, glyphs, 0, 0) + lone_line(g, glyphs, 0, 1) + lone_line(
        g,
        glyphs,
        0,
        2,
    ) + "+-------+-------+-------+-------+\n"@ + wide_line(g, glyphs, 0) + wide_line(g, glyphs, 1)
        + wide_line(g, glyphs, 2) + "+-------+-------+-------+-------+\n"@ + lone_line(
        g,
        glyphs,
        5,
        0,
    ) + lone_line(g, glyphs, 5, 1) + lone_line(g, glyphs, 5, 2) + "        +-------+"@
}

/// What six strings say, one for each colour id.
pub open spec fn glyphs_of(palette: [String; 6]) -> Seq<Seq<char>> {
    Seq::new(6, |n: int| palette[n]@)
}

/// Six glyphs of which each is a way to write the colour of its place.
pub open spec fn is_palette(glyphs: Seq<Seq<char>>) -> bool {
    &&& glyphs.len() == 6
    &&& forall|c: Color| c.is_abbr(#[trigger] glyphs[c.id() as int])
}

/// Writes three glyphs with the blanks around them.
fn write_cells(a: &str, b: &str, c: &str) -> (s: String)
    ensures
        s@ == cells(a@, b@, c@),
{
    let mut s = String::from_str(" ");
    s.append(a);
    s.append(" ");
    s.append(b);
    s.append(" ");
    s.append(c);
    s.append(" ");
    s
}

impl Cube {
    /// Writes line `line` of the three lines of `face`.
    fn write_face_line(&self, palette: &[String; 6], face: Face, line: usize) -> (s: String)
        requires
            line < 3,
        ensures
            s@ == face_line(self@, glyphs_of(*palette), face.id(), line as int),
    {
        if line == 0 {
            write_cells(
                palette[self.sticker(face, 0).index()].as_str(),
                palette[self.sticker(face, 1).index()].as_str(),
                palette[self.sticker(face, 2).index()].as_str(),
            )
        } else if line == 1 {
            write_cells(
                palette[self.sticker(face, 7).index()].as_str(),
                palette[Cube::center(face).index()].as_str(),
                palette[self.sticker(face, 3).index()].as_str(),
            )
        } else {
            write_cells(
                palette[self.sticker(face, 6).index()].as_str(),
                palette[self.sticker(face, 5).index()].as_str(),
                palette[self.sticker(face, 4).index()].as_str(),
            )
        }
    }

    /// Writes a line of the upper or lower face, set in and closed.
    fn write_lone_line(&self, palette: &[String; 6], face: Face, line: usize) -> (s: String)
        requires
            line < 3,
        ensures
            s@ == lone_line(self@, glyphs_of(*palette), face.id(), line as int),
    {
        let mut s = String::from_str("        |");
        s.append(self.write_face_line(palette, face, line).as_str());
        s.append("|\n");
        s
    }

    /// Writes the same line of the four faces of the middle band.
    fn write_wide_line(&self, palette: &[String; 6], line: usize) -> (s: String)
        requires
            line < 3,
        ensures
            s@ == wide_line(self@, glyphs_of(*palette), line as int),
    {
        let mut s = String::from_str("|");
        s.append(self.write_face_line(palette, Face::L, line).as_str());
        s.append("|");
        s.append(self.write_face_line(palette, Face::F, line).as_str());
        s.append("|");
        s.append(self.write_face_line(palette, Face::R, line).as_str());
        s.append("|");
        s.append(self.write_face_line(palette, Face::B, line).as_str());
        s.append("|\n");
        s
    }

    /// The drawing of the cube in which the sticker of colour id `n` is
    /// written as `palette[n]`.
    pub fn render_with(&self, palette: &[String; 6]) -> (s: String)
        ensures
            s@ == net_text(self@, glyphs_of(*palette)),
    {
        let mut s = String::from_str("        +-------+\n");
        s.append(self.write_lone_line(palette, Face::U, 0).as_str());
        s.append(self.write_lone_line(palette, Face::U, 1).as_str());
        s.append(self.write_lone_line(palette, Face::U, 2).as_str());
        s.append("+-------+-------+-------+-------+\n");
        s.append(self.write_wide_line(palette, 0).as_str());
        s.append(self.write_wide_line(palette, 1).as_str());
        s.append(self.write_wide_line(palette, 2).as_str());
        s.append("+-------+-------+-------+-------+\n");
        s.append(self.write_lone_line(palette, Face::D, 0).as_str());
        s.append(self.write_lone_line(palette, Face::D, 1).as_str());
        s.append(self.write_lone_line(palette, Face::D, 2).as_str());
        s.append("        +-------+");
        s
    }

    /// The drawing of the cube with every sticker written as the
    /// abbreviation of its colour.
    pub fn render(&self) -> (s: String)
        ensures
            exists|glyphs: Seq<Seq<char>>|
                is_palette(glyphs) && s@ == #[trigger] net_text(self@, glyphs),
    {
        let palette = [
            Color::White.to_abbr(),
            Color::Green.to_abbr(),
            Color::Red.to_abbr(),
            Color::Blue.to_abbr(),
            Color::Orange.to_abbr(),
            Color::Yellow.to_abbr(),
        ];
        let s = self.render_with(&palette);
        proof {
            let glyphs = glyphs_of(palette);
            assert forall|c: Color| c.is_abbr(#[trigger] glyphs[c.id() as int]) by {
                match c {
                    Color::White => assert(glyphs[0] == palette[0]@),
                    Color::Green => assert(glyphs[1] == palette[1]@),
                    Color::Red => assert(glyphs[2] == palette[2]@),
                    Color::Blue => assert(glyphs[3] == palette[3]@),
                    Color::Orange => assert(glyphs[4] == palette[4]@),
                    Color::Yellow => assert(glyphs[5] == palette[5]@),
                }
            }
        }
        s
    }
}

} // verus!

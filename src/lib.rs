use vstd::prelude::*;

pub mod ansi;
pub mod coord;
pub mod grid_layer;
pub mod rectangle;
pub mod term_canvas;

pub use coord::{Coord, Size};
use ansi::{jump_next_line, jump_next_line_seq, push_char, push_string};

verus! {

/// The nine parts of a rectangle: its interior, four corners and four sides.
#[derive(Debug, Clone, Copy, PartialEq, Eq, Structural)]
pub enum RectPart {
    Center,
    LeftTop,
    Top,
    RightTop,
    RightSide,
    RightBottom,
    Bottom,
    LeftBottom,
    LeftSide,
}

/// A set of characters to draw a rectangle with, one for each part.
pub trait RectChars {
    /// The character that stands at `part`.
    spec fn char_at(&self, part: RectPart) -> char;

    fn get_char_at(&self, part: RectPart) -> (r: char)
        ensures
            r == self.char_at(part),
    ;
}

} // verus!

verus! {

/// `n` copies of `c`.
pub open spec fn repeat_char(c: char, n: nat) -> Seq<char> {
    Seq::new(n, |_i: int| c)
}

/// Appends `n` copies of `c` to `s`.
fn push_repeated(s: &mut String, c: char, n: u16)
    ensures
        final(s)@ == old(s)@ + repeat_char(c, n as nat),
{
    let ghost start = s@;
    let mut i: u16 = 0;
    while i < n
        invariant
            i <= n,
            s@ == start + repeat_char(c, i as nat),
        decreases n - i,
    {
        push_char(s, c);
        i = i + 1;
        assert(s@ =~= start + repeat_char(c, i as nat));
    }
}

/// A rectangular room drawn with ANSI cursor movements.
///
/// `size` is the size of the floor; the walls add one column on each side
/// and one row above and below, so a room of size `(0, 0)` is drawn as a
/// 2x2 box. The room is drawn from the cursor's position, which is its
/// top-left corner.
pub struct AnsiRoom<T: RectChars> {
    pub chars: T,
    pub border_style: String,
    pub fill_style: String,
    pub size: Size<u16>,
}

impl<T: RectChars> AnsiRoom<T> {
    /// The sequence that moves the cursor from the end of one line of the
    /// room to the start of the next.
    pub open spec fn jump_spec(&self) -> Seq<char> {
        jump_next_line_seq((self.size.width + 2) as nat)
    }

    /// The top wall: the border style, then the top-left corner, the top side
    /// and the top-right corner.
    pub open spec fn top_line_spec(&self) -> Seq<char> {
        self.border_style@ + seq![self.chars.char_at(RectPart::LeftTop)]
            + repeat_char(self.chars.char_at(RectPart::Top), self.size.width as nat)
            + seq![self.chars.char_at(RectPart::RightTop)]
    }

    /// One row of floor: a jump to the next line, the left side, the fill
    /// style, the floor, the border style and the right side.
    pub open spec fn middle_line_spec(&self) -> Seq<char> {
        self.jump_spec() + seq![self.chars.char_at(RectPart::LeftSide)] + self.fill_style@
            + repeat_char(self.chars.char_at(RectPart::Center), self.size.width as nat)
            + self.border_style@ + seq![self.chars.char_at(RectPart::RightSide)]
    }

    /// The bottom wall: a jump to the next line, then the bottom-left corner,
    /// the bottom side and the bottom-right corner.
    pub open spec fn bottom_line_spec(&self) -> Seq<char> {
        self.jump_spec() + seq![self.chars.char_at(RectPart::LeftBottom)]
            + repeat_char(self.chars.char_at(RectPart::Bottom), self.size.width as nat)
            + seq![self.chars.char_at(RectPart::RightBottom)]
    }

    /// The writes that draw the room, in order: the top line, the middle
    /// line once per row of floor, and the bottom line.
    pub open spec fn writes_spec(&self) -> Seq<Seq<char>> {
        seq![self.top_line_spec()]
            + Seq::new(self.size.height as nat, |_i: int| self.middle_line_spec())
            + seq![self.bottom_line_spec()]
    }

    pub fn top_line(&self) -> (r: String)
        ensures
            r@ == self.top_line_spec(),
    {
        let mut line = self.border_style.clone();
        push_char(&mut line, self.chars.get_char_at(RectPart::LeftTop));
        push_repeated(&mut line, self.chars.get_char_at(RectPart::Top), self.size.width);
        push_char(&mut line, self.chars.get_char_at(RectPart::RightTop));
        line
    }

    pub fn middle_line(&self) -> (r: String)
        requires
            self.size.width + 2 <= u16::MAX,
        ensures
            r@ == self.middle_line_spec(),
    {
        let mut line = jump_next_line(self.size.width + 2);
        push_char(&mut line, self.chars.get_char_at(RectPart::LeftSide));
        push_string(&mut line, &self.fill_style);
        push_repeated(&mut line, self.chars.get_char_at(RectPart::Center), self.size.width);
        push_string(&mut line, &self.border_style);
        push_char(&mut line, self.chars.get_char_at(RectPart::RightSide));
        line
    }

    pub fn bottom_line(&self) -> (r: String)
        requires
            self.size.width + 2 <= u16::MAX,
        ensures
            r@ == self.bottom_line_spec(),
    {
        let mut line = jump_next_line(self.size.width + 2);
        push_char(&mut line, self.chars.get_char_at(RectPart::LeftBottom));
        push_repeated(&mut line, self.chars.get_char_at(RectPart::Bottom), self.size.width);
        push_char(&mut line, self.chars.get_char_at(RectPart::RightBottom));
        line
    }

    /// The strings that, written to a terminal in order, draw the room.
    ///
    /// The middle line is built once and repeated: the jump at its start is
    /// what moves each copy one row further down.
    pub fn lines(&self) -> (r: Vec<String>)
        requires
            self.size.width + 2 <= u16::MAX,
        ensures
            r@.len() == self.writes_spec().len(),
            forall|i: int| 0 <= i < r@.len() ==> #[trigger] r@[i]@ == self.writes_spec()[i],
    {
        let mut out: Vec<String> = Vec::new();
        out.push(self.top_line());
        if self.size.height > 0 {
            let middle = self.middle_line();
            let mut i: u16 = 0;
            while i < self.size.height
                invariant
                    i <= self.size.height,
                    middle@ == self.middle_line_spec(),
                    out@.len() == 1 + i,
                    out@[0]@ == self.top_line_spec(),
                    forall|j: int| 1 <= j < out@.len() ==> #[trigger] out@[j]@ == self.middle_line_spec(),
                decreases self.size.height - i,
            {
                out.push(middle.clone());
                i = i + 1;
            }
        }
        out.push(self.bottom_line());
        out
    }
}

} // verus!

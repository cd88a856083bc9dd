use vstd::prelude::*;

use super::{RectChars, RectPart};

verus! {

/// One character for the border, one for the fill.
pub struct TwoCharRect {
    border: char,
    fill: char,
}

impl TwoCharRect {
    pub fn new(border_char: char, fill_char: char) -> (r: Self)
        ensures
            forall|part: RectPart| #[trigger]
                r.char_at(part) == (if part is Center { fill_char } else { border_char }),
    {
        TwoCharRect { border: border_char, fill: fill_char }
    }
}

impl RectChars for TwoCharRect {
    closed spec fn char_at(&self, part: RectPart) -> char {
        if part is Center {
            self.fill
        } else {
            self.border
        }
    }

    fn get_char_at(&self, part: RectPart) -> (r: char) {
        if let RectPart::Center = part {
            self.fill
        } else {
            self.border
        }
    }
}

/// One character each for the corners, the horizontal border, the vertical
/// border and the fill.
pub struct FourCharRect {
    corner: char,
    border_horiz: char,
    border_vert: char,
    fill: char,
}

/// The character of a four-character rectangle for `part`.
pub open spec fn four_char_at(
    corner: char,
    horiz: char,
    vert: char,
    fill: char,
    part: RectPart,
) -> char {
    match part {
        RectPart::Center => fill,
        RectPart::Top | RectPart::Bottom => horiz,
        RectPart::LeftSide | RectPart::RightSide => vert,
        _ => corner,
    }
}

impl FourCharRect {
    pub fn new(
        corner_char: char,
        horizontal_border_char: char,
        vertical_border_char: char,
        fill_char: char,
    ) -> (r: Self)
        ensures
            forall|part: RectPart| #[trigger]
                r.char_at(part) == four_char_at(
                    corner_char,
                    horizontal_border_char,
                    vertical_border_char,
                    fill_char,
                    part,
                ),
    {
        FourCharRect {
            corner: corner_char,
            border_horiz: horizontal_border_char,
            border_vert: vertical_border_char,
            fill: fill_char,
        }
    }
}

impl RectChars for FourCharRect {
    closed spec fn char_at(&self, part: RectPart) -> char {
        four_char_at(self.corner, self.border_horiz, self.border_vert, self.fill, part)
    }

    fn get_char_at(&self, part: RectPart) -> (r: char) {
        match part {
            RectPart::Center => self.fill,
            RectPart::Top => self.border_horiz,
            RectPart::RightSide => self.border_vert,
            RectPart::Bottom => self.border_horiz,
            RectPart::LeftSide => self.border_vert,
            _ => self.corner,
        }
    }
}

/// Light single-line box-drawing characters around a chosen fill.
pub struct UnicodeLineRect {
    fill: char,
}

/// The light box-drawing character for `part`, or `fill` for the center.
pub open spec fn unicode_line_char_at(fill: char, part: RectPart) -> char {
    match part {
        RectPart::Center => fill,
        RectPart::LeftTop => '┌',
        RectPart::Top => '─',
        RectPart::RightTop => '┐',
        RectPart::RightSide => '│',
        RectPart::RightBottom => '┘',
        RectPart::Bottom => '─',
        RectPart::LeftBottom => '└',
        RectPart::LeftSide => '│',
    }
}

impl UnicodeLineRect {
    pub fn new(fill_char: char) -> (r: Self)
        ensures
            forall|part: RectPart| #[trigger]
                r.char_at(part) == unicode_line_char_at(fill_char, part),
    {
        UnicodeLineRect { fill: fill_char }
    }
}

impl RectChars for UnicodeLineRect {
    closed spec fn char_at(&self, part: RectPart) -> char {
        unicode_line_char_at(self.fill, part)
    }

    fn get_char_at(&self, part: RectPart) -> (r: char) {
        match part {
            RectPart::Center => self.fill,
            RectPart::LeftTop => '┌',
            RectPart::Top => '─',
            RectPart::RightTop => '┐',
            RectPart::RightSide => '│',
            RectPart::RightBottom => '┘',
            RectPart::Bottom => '─',
            RectPart::LeftBottom => '└',
            RectPart::LeftSide => '│',
        }
    }
}

} // verus!

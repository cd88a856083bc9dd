use rectdraw::rectangle::{FourCharRect, TwoCharRect, UnicodeLineRect};
use rectdraw::{RectChars, RectPart};

fn border_parts() -> Vec<RectPart> {
    vec![
        RectPart::LeftTop,
        RectPart::Top,
        RectPart::RightTop,
        RectPart::RightSide,
        RectPart::RightBottom,
        RectPart::Bottom,
        RectPart::LeftBottom,
        RectPart::LeftSide,
    ]
}

#[test]
fn two_char_fill_and_border() {
    let r = TwoCharRect::new('#', '.');
    assert_eq!(r.get_char_at(RectPart::Center), '.');
    for part in border_parts() {
        assert_eq!(r.get_char_at(part), '#');
    }
}

#[test]
fn four_char_parts() {
    let r = FourCharRect::new('+', '-', '|', '.');
    assert_eq!(r.get_char_at(RectPart::Top), '-');
    assert_eq!(r.get_char_at(RectPart::Bottom), '-');
    assert_eq!(r.get_char_at(RectPart::LeftSide), '|');
    assert_eq!(r.get_char_at(RectPart::RightSide), '|');
    assert_eq!(r.get_char_at(RectPart::Center), '.');
    assert_eq!(r.get_char_at(RectPart::LeftTop), '+');
    assert_eq!(r.get_char_at(RectPart::RightTop), '+');
    assert_eq!(r.get_char_at(RectPart::LeftBottom), '+');
    assert_eq!(r.get_char_at(RectPart::RightBottom), '+');
}

#[test]
fn unicode_line_parts() {
    let r = UnicodeLineRect::new('.');
    assert_eq!(r.get_char_at(RectPart::Center), '.');
    assert_eq!(r.get_char_at(RectPart::LeftTop), '┌');
    assert_eq!(r.get_char_at(RectPart::Top), '─');
    assert_eq!(r.get_char_at(RectPart::RightTop), '┐');
    assert_eq!(r.get_char_at(RectPart::RightSide), '│');
    assert_eq!(r.get_char_at(RectPart::RightBottom), '┘');
    assert_eq!(r.get_char_at(RectPart::Bottom), '─');
    assert_eq!(r.get_char_at(RectPart::LeftBottom), '└');
    assert_eq!(r.get_char_at(RectPart::LeftSide), '│');
}

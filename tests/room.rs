use rectdraw::ansi::jump_next_line;
use rectdraw::rectangle::{FourCharRect, TwoCharRect, UnicodeLineRect};
use rectdraw::{AnsiRoom, RectChars, Size};

/// Removes every `ESC [ params letter` sequence.
fn strip_controls(s: &str) -> String {
    let mut out = String::new();
    let mut chars = s.chars();
    while let Some(c) = chars.next() {
        if c == '\x1b' {
            assert_eq!(chars.next(), Some('['));
            loop {
                let p = chars.next().unwrap();
                if p.is_ascii_alphabetic() {
                    break;
                }
            }
        } else {
            out.push(c);
        }
    }
    out
}

fn room<T: RectChars>(chars: T, width: u16, height: u16) -> AnsiRoom<T> {
    AnsiRoom { chars, border_style: String::new(), fill_style: String::new(), size: Size::new(width, height) }
}

fn visible_rows<T: RectChars>(r: &AnsiRoom<T>) -> Vec<String> {
    r.lines().iter().map(|l| strip_controls(l)).collect()
}

#[test]
fn jump_sequence_bytes() {
    assert_eq!(jump_next_line(5), "\x1b[1B\x1b[5D");
    assert_eq!(jump_next_line(0), "\x1b[1B\x1b[0D");
    assert_eq!(jump_next_line(65535), "\x1b[1B\x1b[65535D");
}

#[test]
fn unicode_room_two_by_one() {
    let r = room(UnicodeLineRect::new('.'), 2, 1);
    assert_eq!(visible_rows(&r), vec!["┌──┐", "│..│", "└──┘"]);
}

#[test]
fn unicode_room_degenerate() {
    let r = room(UnicodeLineRect::new('.'), 0, 0);
    assert_eq!(visible_rows(&r), vec!["┌┐", "└┘"]);
    assert_eq!(r.lines().concat(), "┌┐\x1b[1B\x1b[2D└┘");
}

#[test]
fn room_zero_width_keeps_sides() {
    let r = room(TwoCharRect::new('#', '.'), 0, 2);
    assert_eq!(visible_rows(&r), vec!["##", "##", "##", "##"]);
}

#[test]
fn room_exact_lines_with_styles() {
    let r = AnsiRoom {
        chars: FourCharRect::new('+', '-', '|', '.'),
        border_style: String::from("<b>"),
        fill_style: String::from("<f>"),
        size: Size::new(3, 2),
    };
    let jump = "\x1b[1B\x1b[5D";
    let middle = format!("{}|<f>...<b>|", jump);
    assert_eq!(
        r.lines(),
        vec![String::from("<b>+---+"), middle.clone(), middle, format!("{}+---+", jump)]
    );
    assert_eq!(r.top_line(), "<b>+---+");
    assert_eq!(r.bottom_line(), format!("{}+---+", jump));
}

#[test]
fn room_four_by_four_rows() {
    let r = room(TwoCharRect::new('#', '.'), 4, 4);
    let rows = visible_rows(&r);
    assert_eq!(rows.len(), 6);
    assert_eq!(rows[0], "######");
    for row in &rows[1..5] {
        assert_eq!(row, "#....#");
    }
    assert_eq!(rows[5], "######");
}

use rectdraw::grid_layer::GridLayer;
use rectdraw::term_canvas::TermCanvas;
use rectdraw::{Coord, Size};

#[test]
fn new_canvas_is_blank() {
    let c = TermCanvas::new(Coord::new(0, 0), Size::new(4, 3));
    for y in 0..3 {
        for x in 0..4 {
            assert_eq!(c.get(Coord::new(x, y)), ' ');
        }
    }
    assert_eq!(c.size(), Size::new(4, 3));
    assert_eq!(c.pos(), Coord::new(0, 0));
}

#[test]
fn render_exact_text() {
    let mut c = TermCanvas::new(Coord::new(0, 0), Size::new(3, 2));
    assert_eq!(c.render(), "\x1b[1;1H   \x1b[1B\x1b[2D   \x1b[1B\x1b[2D");
}

#[test]
fn render_goto_is_one_based_row_then_column() {
    let mut c = TermCanvas::new(Coord::new(4, 9), Size::new(1, 1));
    c.set(Coord::new(0, 0), 'a');
    assert_eq!(c.render(), "\x1b[10;5Ha\x1b[1B\x1b[0D");
}

#[test]
fn render_twice_is_identical() {
    let mut c = TermCanvas::new(Coord::new(2, 1), Size::new(3, 2));
    let first = c.render();
    let second = c.render();
    assert_eq!(first, second);
}

#[test]
fn set_changes_one_char_of_render() {
    let mut c = TermCanvas::new(Coord::new(0, 0), Size::new(3, 2));
    let before = c.render();
    c.set(Coord::new(1, 1), 'X');
    let after = c.render();
    let b: Vec<char> = before.chars().collect();
    let a: Vec<char> = after.chars().collect();
    assert_eq!(a.len(), b.len());
    let diffs: Vec<usize> = (0..a.len()).filter(|&i| a[i] != b[i]).collect();
    // "\x1b[1;1H" is 6 chars, each row is 3 cells and an 8-char jump.
    assert_eq!(diffs, vec![6 + 11 + 1]);
    assert_eq!(a[18], 'X');
    assert_eq!(c.get(Coord::new(1, 1)), 'X');
}

#[test]
fn set_pos_moves_render() {
    let mut c = TermCanvas::new(Coord::new(0, 0), Size::new(1, 1));
    let before = c.render();
    c.set_pos(Coord::new(2, 3));
    let after = c.render();
    assert_ne!(before, after);
    assert!(after.starts_with("\x1b[4;3H"));
    assert_eq!(c.pos(), Coord::new(2, 3));
}

#[test]
fn empty_canvas_renders_only_goto() {
    let mut c = TermCanvas::new(Coord::new(0, 0), Size::new(0, 0));
    assert_eq!(c.render(), "\x1b[1;1H");
}

#[test]
fn clone_keeps_cells() {
    let mut c = TermCanvas::new(Coord::new(0, 0), Size::new(2, 2));
    c.set(Coord::new(1, 0), 'q');
    let _ = c.render();
    let mut d = c.clone();
    assert_eq!(d.get(Coord::new(1, 0)), 'q');
    assert_eq!(d.render(), c.render());
}

#[test]
fn grid_layer_is_a_canvas() {
    let mut g: GridLayer = GridLayer::new(Coord::new(0, 0), Size::new(2, 1));
    g.set(Coord::new(0, 0), 'z');
    assert_eq!(g.render(), "\x1b[1;1Hz \x1b[1B\x1b[1D");
}

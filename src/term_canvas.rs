use vstd::prelude::*;

use crate::ansi::{
    cursor_goto,
    cursor_goto_seq,
    jump_next_line,
    jump_next_line_seq,
    push_char,
    push_string,
};
use crate::coord::{linear_index, Coord, Size};

verus! {

/// The rows of a `width`-wide grid of `cells`, first `h` of them, each row
/// followed by `jump`.
pub open spec fn rows_repr(cells: Seq<char>, width: nat, jump: Seq<char>, h: nat) -> Seq<char>
    decreases h,
{
    if h == 0 {
        Seq::empty()
    } else {
        rows_repr(cells, width, jump, (h - 1) as nat)
            + cells.subrange((h - 1) * width, (h * width) as int) + jump
    }
}

/// The sequence that moves the cursor from the end of one row of a
/// `width`-wide canvas to the start of the next.
pub open spec fn canvas_jump(width: nat) -> Seq<char> {
    jump_next_line_seq((width - 1) as nat)
}

/// The text that draws a canvas: a move of the cursor to the canvas's
/// top-left corner (one-based), then each row of cells followed by a jump to
/// the next row.
pub open spec fn canvas_repr(pos: Coord<u32>, size: Size<u32>, cells: Seq<char>) -> Seq<char> {
    cursor_goto_seq((pos.x + 1) as nat, (pos.y + 1) as nat)
        + rows_repr(cells, size.width as nat, canvas_jump(size.width as nat), size.height as nat)
}

/// Whether a canvas at `pos` with size `size` can be drawn with the cursor
/// movements of a terminal, whose coordinates and distances are 16-bit.
pub open spec fn drawable(pos: Coord<u32>, size: Size<u32>) -> bool {
    &&& pos.x + 1 <= u16::MAX
    &&& pos.y + 1 <= u16::MAX
    &&& size.height == 0 || (1 <= size.width && size.width - 1 <= u16::MAX)
}

/// What a canvas holds: its position, its size, its cells row by row, and the
/// text cached from the last rendering, if nothing has changed since.
pub struct CanvasView {
    pub pos: Coord<u32>,
    pub size: Size<u32>,
    pub cells: Seq<char>,
    pub cache: Option<Seq<char>>,
}

/// A rectangular grid of characters at a position on the terminal.
///
/// Read and write cells with `get` and `set`; `render` gives the text that
/// draws the canvas, and keeps it until a cell or the position changes.
#[derive(Debug)]
pub struct TermCanvas {
    pos: Coord<u32>,
    size: Size<u32>,
    grid_array: Vec<char>,
    str_repr: Option<String>,
}

impl View for TermCanvas {
    type V = CanvasView;

    closed spec fn view(&self) -> CanvasView {
        CanvasView {
            pos: self.pos,
            size: self.size,
            cells: self.grid_array@,
            cache: match self.str_repr {
                Some(s) => Some(s@),
                None => None,
            },
        }
    }
}

impl TermCanvas {
    /// One cell per position, and a cached text only if it is the text of
    /// the current state.
    pub open spec fn wf(&self) -> bool {
        &&& self@.cells.len() == self@.size.width * self@.size.height
        &&& self@.cache is Some ==> self@.cache == Some(
            canvas_repr(self@.pos, self@.size, self@.cells),
        )
    }

    /// `r` is what `render` returns on `before`, leaving `after`: the text of
    /// the canvas, which is then cached; if it was cached already, the canvas
    /// is left as it was.
    pub open spec fn rendered(before: TermCanvas, after: TermCanvas, r: Seq<char>) -> bool {
        &&& r == canvas_repr(before@.pos, before@.size, before@.cells)
        &&& after.wf()
        &&& after@.pos == before@.pos
        &&& after@.size == before@.size
        &&& after@.cells == before@.cells
        &&& after@.cache == Some(r)
        &&& before@.cache is Some ==> after == before
    }

    /// Creates a canvas of `size` at `pos` with every cell a space.
    pub fn new(pos: Coord<u32>, size: Size<u32>) -> (r: Self)
        requires
            size.width * size.height <= usize::MAX,
        ensures
            r.wf(),
            r@.pos == pos,
            r@.size == size,
            r@.cells == Seq::new((size.width * size.height) as nat, |_i: int| ' '),
            r@.cache is None,
    {
        let cap = size.area() as usize;
        let mut array: Vec<char> = Vec::with_capacity(cap);
        let mut i: usize = 0;
        while i < cap
            invariant
                i <= cap,
                array@ == Seq::new(i as nat, |_i: int| ' '),
            decreases cap - i,
        {
            array.push(' ');
            i = i + 1;
            assert(array@ =~= Seq::new(i as nat, |_i: int| ' '));
        }
        TermCanvas { pos: pos, size: size, grid_array: array, str_repr: None }
    }

    pub fn pos(&self) -> (r: Coord<u32>)
        ensures
            r == self@.pos,
    {
        self.pos
    }

    /// Moves the canvas; the cached text no longer holds.
    pub fn set_pos(&mut self, new_pos: Coord<u32>)
        requires
            old(self).wf(),
        ensures
            final(self).wf(),
            final(self)@.pos == new_pos,
            final(self)@.size == old(self)@.size,
            final(self)@.cells == old(self)@.cells,
            final(self)@.cache is None,
    {
        self.clear_str_repr();
        self.pos = new_pos;
    }

    pub fn size(&self) -> (r: Size<u32>)
        ensures
            r == self@.size,
    {
        self.size
    }

    /// Whether a text of the canvas is cached.
    fn has_str_repr(&self) -> (r: bool)
        ensures
            r == self@.cache is Some,
    {
        self.str_repr.is_some()
    }

    /// Drops the cached text.
    fn clear_str_repr(&mut self)
        ensures
            final(self)@.pos == old(self)@.pos,
            final(self)@.size == old(self)@.size,
            final(self)@.cells == old(self)@.cells,
            final(self)@.cache is None,
    {
        self.str_repr = None;
    }

    /// Builds the text that draws the canvas.
    fn gen_str_repr(&self) -> (r: String)
        requires
            self.wf(),
            drawable(self@.pos, self@.size),
        ensures
            r@ == canvas_repr(self@.pos, self@.size, self@.cells),
    {
        let width = self.size.width;
        let height = self.size.height;
        let ghost cells = self@.cells;
        let ghost jump_seq = canvas_jump(width as nat);
        let mut out = cursor_goto((self.pos.x + 1) as u16, (self.pos.y + 1) as u16);
        if height == 0 {
            return out;
        }
        let jump = jump_next_line((width - 1) as u16);
        let ghost start = out@;
        let n = self.grid_array.len();
        let mut y: u32 = 0;
        while y < height
            invariant
                self.wf(),
                cells == self@.cells,
                width == self.size.width,
                height == self.size.height,
                1 <= width,
                jump@ == jump_seq,
                jump_seq == canvas_jump(width as nat),
                y <= height,
                n == cells.len(),
                start == cursor_goto_seq((self@.pos.x + 1) as nat, (self@.pos.y + 1) as nat),
                out@ == start + rows_repr(cells, width as nat, jump_seq, y as nat),
            decreases height - y,
        {
            let ghost before_row = out@;
            proof {
                lemma_cell_in_grid(0, y as int, width as int, height as int);
                assert(cells.subrange(y * width, y * width + 0) =~= Seq::<char>::empty());
                assert(out@ =~= before_row + cells.subrange(y * width, y * width + 0));
            }
            let mut x: u32 = 0;
            while x < width
                invariant
                    self.wf(),
                    cells == self@.cells,
                    width == self.size.width,
                    height == self.size.height,
                    x <= width,
                    y < height,
                    n == cells.len(),
                    y * width + width <= cells.len(),
                    out@ == before_row + cells.subrange(y * width, y * width + x),
                decreases width - x,
            {
                proof {
                    lemma_cell_in_grid(x as int, y as int, width as int, height as int);
                }
                let idx = Coord::new(x, y).encode_linear_index(width as usize);
                push_char(&mut out, self.grid_array[idx]);
                x = x + 1;
                assert(out@ =~= before_row + cells.subrange(y * width, y * width + x));
            }
            push_string(&mut out, &jump);
            proof {
                assert((y + 1) * width == y * width + width) by (nonlinear_arith);
            }
            y = y + 1;
            assert(out@ =~= start + rows_repr(cells, width as nat, jump_seq, y as nat));
        }
        out
    }

    /// The text that draws the canvas: a move of the cursor to its top-left
    /// corner, then its rows, each followed by a jump to the start of the
    /// next. The text is cached, and while nothing changes a second call
    /// returns the cached text and leaves the canvas as it is.
    pub fn render(&mut self) -> (r: String)
        requires
            old(self).wf(),
            drawable(old(self)@.pos, old(self)@.size),
        ensures
            Self::rendered(*old(self), *final(self), r@),
    {
        match &self.str_repr {
            Some(s) => {
                return s.clone();
            },
            None => {},
        }
        let s = self.gen_str_repr();
        self.str_repr = Some(s.clone());
        s
    }

    /// The cell at `coord`.
    pub fn get(&self, coord: Coord<u32>) -> (r: char)
        requires
            self.wf(),
            coord.x < self@.size.width,
            coord.y < self@.size.height,
        ensures
            r == self@.cells[linear_index(coord.x as int, coord.y as int, self@.size.width as int)],
    {
        proof {
            lemma_cell_in_grid(coord.x as int, coord.y as int, self.size.width as int, self.size.height as int);
        }
        let _n = self.grid_array.len();
        self.grid_array[coord.encode_linear_index(self.size.width as usize)]
    }

    /// Writes `c` into the cell at `coord`; the cached text no longer holds.
    pub fn set(&mut self, coord: Coord<u32>, c: char)
        requires
            old(self).wf(),
            coord.x < old(self)@.size.width,
            coord.y < old(self)@.size.height,
        ensures
            final(self).wf(),
            final(self)@.pos == old(self)@.pos,
            final(self)@.size == old(self)@.size,
            final(self)@.cells == old(self)@.cells.update(
                linear_index(coord.x as int, coord.y as int, old(self)@.size.width as int),
                c,
            ),
            final(self)@.cache is None,
    {
        proof {
            lemma_cell_in_grid(coord.x as int, coord.y as int, self.size.width as int, self.size.height as int);
        }
        let _n = self.grid_array.len();
        self.clear_str_repr();
        let idx = coord.encode_linear_index(self.size.width as usize);
        self.grid_array.set(idx, c);
    }
}

impl Clone for TermCanvas {
    /// A copy of the canvas, without the cached text.
    fn clone(&self) -> (r: Self)
        ensures
            self.wf() ==> r.wf(),
            r@.pos == self@.pos,
            r@.size == self@.size,
            r@.cells == self@.cells,
            r@.cache is None,
    {
        TermCanvas {
            pos: self.pos,
            size: self.size,
            grid_array: self.grid_array.clone(),
            str_repr: None,
        }
    }
}

/// A cell inside a `width` by `height` grid has a row-major index inside it.
proof fn lemma_cell_in_grid(x: int, y: int, width: int, height: int)
    requires
        0 <= x < width,
        0 <= y < height,
    ensures
        0 <= linear_index(x, y, width),
        linear_index(x, y, width) + 1 <= width * height,
        linear_index(x, y, width) + 1 <= y * width + width,
        y * width + width <= width * height,
{
    assert(y * width + width <= width * height) by (nonlinear_arith)
        requires
            0 <= y < height,
            0 <= width,
    ;
    assert(y * width + x + 1 <= width * height) by (nonlinear_arith)
        requires
            0 <= x < width,
            0 <= y < height,
    ;
    assert(0 <= y * width) by (nonlinear_arith)
        requires
            0 <= y,
            0 <= width,
    ;
}

/// The rows of a grid hold `width` cells and the jump each.
proof fn lemma_rows_repr_len(cells: Seq<char>, width: nat, jump: Seq<char>, h: nat)
    requires
        h * width <= cells.len(),
    ensures
        rows_repr(cells, width, jump, h).len() == h * (width + jump.len()),
    decreases h,
{
    if h > 0 {
        let hp = (h - 1) as nat;
        let jl = jump.len();
        assert(hp * width + width == h * width && hp * (width + jl) + width + jl == h * (width + jl))
            by (nonlinear_arith)
            requires
                hp == h - 1,
        ;
        lemma_rows_repr_len(cells, width, jump, hp);
    } else {
        assert(h * (width + jump.len()) == 0) by (nonlinear_arith)
            requires
                h == 0,
        ;
    }
}

/// A cell past the first `h` rows does not show in them.
proof fn lemma_rows_repr_frame(cells: Seq<char>, width: nat, jump: Seq<char>, h: nat, i: int, c: char)
    requires
        h * width <= i < cells.len(),
    ensures
        rows_repr(cells.update(i, c), width, jump, h) == rows_repr(cells, width, jump, h),
    decreases h,
{
    if h > 0 {
        assert((h - 1) * width <= h * width) by (nonlinear_arith)
            requires
                h > 0,
        ;
        lemma_rows_repr_frame(cells, width, jump, (h - 1) as nat, i, c);
        assert(cells.update(i, c).subrange((h - 1) * width, (h * width) as int)
            =~= cells.subrange((h - 1) * width, (h * width) as int));
    }
}

/// Writing `c` into the cell `(x, y)` changes the rows in one place, where
/// that cell is shown.
proof fn lemma_rows_repr_update(
    cells: Seq<char>,
    width: nat,
    jump: Seq<char>,
    h: nat,
    x: int,
    y: int,
    c: char,
)
    requires
        h * width <= cells.len(),
        0 <= x < width,
        0 <= y < h,
    ensures
        rows_repr(cells.update(linear_index(x, y, width as int), c), width, jump, h)
            == rows_repr(cells, width, jump, h).update(y * (width + jump.len()) + x, c),
        rows_repr(cells, width, jump, h)[y * (width + jump.len()) + x]
            == cells[linear_index(x, y, width as int)],
    decreases h,
{
    let i = linear_index(x, y, width as int);
    let k = y * (width + jump.len()) + x;
    let hp = (h - 1) as nat;
    let upd = cells.update(i, c);
    lemma_cell_in_grid(x, y, width as int, h as int);
    assert(h * width == hp * width + width && h * width == width * h) by (nonlinear_arith)
        requires
            hp == h - 1,
    ;
    lemma_rows_repr_len(cells, width, jump, hp);
    lemma_rows_repr_len(upd, width, jump, hp);
    let prev = rows_repr(cells, width, jump, hp);
    let row = cells.subrange((hp * width) as int, (h * width) as int);
    if y < hp {
        lemma_rows_repr_update(cells, width, jump, hp, x, y, c);
        lemma_cell_in_grid(x, y, width as int, hp as int);
        assert(k < prev.len()) by (nonlinear_arith)
            requires
                k == y * (width + jump.len()) + x,
                prev.len() == hp * (width + jump.len()),
                0 <= x < width,
                0 <= y < hp,
        ;
        assert(upd.subrange((hp * width) as int, (h * width) as int) =~= row);
        assert(rows_repr(upd, width, jump, h) =~= (prev + row + jump).update(k, c));
    } else {
        assert(y == hp);
        lemma_rows_repr_frame(cells, width, jump, hp, i, c);
        assert(k == prev.len() + x) by (nonlinear_arith)
            requires
                k == y * (width + jump.len()) + x,
                prev.len() == hp * (width + jump.len()),
                y == hp,
        ;
        assert(upd.subrange((hp * width) as int, (h * width) as int) =~= row.update(x, c));
        assert(rows_repr(upd, width, jump, h) =~= (prev + row + jump).update(k, c));
    }
}

/// Where the cell `coord` shows in the text of a canvas at `pos` with size `size`.
pub open spec fn repr_offset(pos: Coord<u32>, size: Size<u32>, coord: Coord<u32>) -> int {
    cursor_goto_seq((pos.x + 1) as nat, (pos.y + 1) as nat).len()
        + coord.y * (size.width + canvas_jump(size.width as nat).len()) + coord.x
}

/// Rendering twice with nothing in between gives the same text, and the
/// second rendering leaves the canvas as the first left it.
pub proof fn lemma_render_twice(
    c0: TermCanvas,
    c1: TermCanvas,
    c2: TermCanvas,
    r1: Seq<char>,
    r2: Seq<char>,
)
    requires
        c0.wf(),
        TermCanvas::rendered(c0, c1, r1),
        TermCanvas::rendered(c1, c2, r2),
    ensures
        r2 == r1,
        c2 == c1,
{
}

/// Rendering, writing `c` into one cell, and rendering again gives a text
/// that differs from the first only where that cell is shown, and holds `c`
/// there in place of the cell's old character.
pub proof fn lemma_render_after_set(
    c0: TermCanvas,
    c1: TermCanvas,
    c2: TermCanvas,
    c3: TermCanvas,
    r1: Seq<char>,
    r2: Seq<char>,
    coord: Coord<u32>,
    c: char,
)
    requires
        c0.wf(),
        TermCanvas::rendered(c0, c1, r1),
        coord.x < c1@.size.width,
        coord.y < c1@.size.height,
        c2.wf(),
        c2@.pos == c1@.pos,
        c2@.size == c1@.size,
        c2@.cells == c1@.cells.update(
            linear_index(coord.x as int, coord.y as int, c1@.size.width as int),
            c,
        ),
        TermCanvas::rendered(c2, c3, r2),
    ensures
        r2.len() == r1.len(),
        r2 == r1.update(repr_offset(c1@.pos, c1@.size, coord), c),
        r1[repr_offset(c1@.pos, c1@.size, coord)]
            == c1@.cells[linear_index(coord.x as int, coord.y as int, c1@.size.width as int)],
{
    let w = c1@.size.width as nat;
    let h = c1@.size.height as nat;
    let jump = canvas_jump(w);
    let goto = cursor_goto_seq((c1@.pos.x + 1) as nat, (c1@.pos.y + 1) as nat);
    let cells = c1@.cells;
    let i = linear_index(coord.x as int, coord.y as int, w as int);
    let k = coord.y * (w + jump.len()) + coord.x;
    assert(h * w == w * h) by (nonlinear_arith);
    assert(cells.len() == w * h);
    lemma_rows_repr_update(cells, w, jump, h, coord.x as int, coord.y as int, c);
    lemma_rows_repr_len(cells, w, jump, h);
    assert(0 <= k) by (nonlinear_arith)
        requires
            k == coord.y * (w + jump.len()) + coord.x,
            0 <= coord.y,
            0 <= coord.x,
    ;
    assert(k < h * (w + jump.len())) by (nonlinear_arith)
        requires
            k == coord.y * (w + jump.len()) + coord.x,
            coord.y < h,
            coord.x < w,
    ;
    assert(r1 == goto + rows_repr(cells, w, jump, h));
    assert(r2 == goto + rows_repr(cells.update(i, c), w, jump, h));
    assert(r2 =~= r1.update(goto.len() + k, c));
}

} // verus!

use vstd::prelude::*;

verus! {

/// A position on a two-dimensional grid.
#[derive(Debug, Clone, Copy, PartialEq, Eq)]
pub struct Coord<T> {
    pub x: T,
    pub y: T,
}

impl<T> Coord<T> {
    pub fn new(x: T, y: T) -> (r: Self)
        ensures
            r.x == x,
            r.y == y,
    {
        Coord { x: x, y: y }
    }
}

/// Row-major offset of the cell `(x, y)` in an area whose rows are `rows` cells long.
pub open spec fn linear_index(x: int, y: int, rows: int) -> int {
    y * rows + x
}

impl Coord<u32> {
    /// Encodes the coordinate as `y * rows + x`, an index into a row-major slice.
    ///
    /// Only when `x < rows` does the index point at this coordinate's own cell;
    /// otherwise it lands in a later row.
    pub fn encode_linear_index(&self, rows: usize) -> (r: usize)
        requires
            linear_index(self.x as int, self.y as int, rows as int) <= usize::MAX,
        ensures
            r == linear_index(self.x as int, self.y as int, rows as int),
    {
        proof {
            assert(0 <= (self.y as int) * (rows as int)) by (nonlinear_arith);
        }
        (self.y as usize) * rows + (self.x as usize)
    }

    /// Decodes a row-major index into `{ x: index % rows, y: index / rows }`.
    pub fn decode_linear_index(linear_index: usize, rows: usize) -> (r: Self)
        requires
            rows > 0,
            linear_index / rows <= u32::MAX,
            linear_index % rows <= u32::MAX,
        ensures
            r.x == linear_index % rows,
            r.y == linear_index / rows,
    {
        Coord { x: (linear_index % rows) as u32, y: (linear_index / rows) as u32 }
    }
}

/// Decoding the encoding of a coordinate whose `x` is inside the row gives the
/// coordinate back.
pub proof fn lemma_decode_encode(c: Coord<u32>, rows: usize)
    requires
        rows > 0,
        (c.x as int) < rows,
    ensures
        linear_index(c.x as int, c.y as int, rows as int) % (rows as int) == c.x,
        linear_index(c.x as int, c.y as int, rows as int) / (rows as int) == c.y,
{
    let i = linear_index(c.x as int, c.y as int, rows as int);
    vstd::arithmetic::div_mod::lemma_fundamental_div_mod_converse(
        i,
        rows as int,
        c.y as int,
        c.x as int,
    );
}

/// The extent of a rectangular area.
#[derive(Debug, Clone, Copy, PartialEq, Eq)]
pub struct Size<T> {
    pub width: T,
    pub height: T,
}

impl<T> Size<T> {
    pub fn new(width: T, height: T) -> (r: Self)
        ensures
            r.width == width,
            r.height == height,
    {
        Size { width: width, height: height }
    }
}

impl Size<u32> {
    /// The number of cells, `width * height`, computed in 64 bits so that it
    /// cannot overflow.
    pub fn area(&self) -> (r: u64)
        ensures
            r == self.width * self.height,
    {
        proof {
            assert((self.width as int) * (self.height as int) <= u32::MAX * u32::MAX)
                by (nonlinear_arith);
        }
        (self.width as u64) * (self.height as u64)
    }
}

impl Size<u16> {
    /// The number of cells, `width * height`, computed in 32 bits so that it
    /// cannot overflow.
    pub fn area(&self) -> (r: u32)
        ensures
            r == self.width * self.height,
    {
        proof {
            assert((self.width as int) * (self.height as int) <= u16::MAX * u16::MAX)
                by (nonlinear_arith);
        }
        (self.width as u32) * (self.height as u32)
    }
}

} // verus!

use vstd::prelude::*;
use vstd::arithmetic::div_mod::{lemma_fundamental_div_mod, lemma_fundamental_div_mod_converse};
use vstd::arithmetic::mul::lemma_mul_inequality;

use crate::color::{convert, rgb565_to_cell};

verus! {

/// Source pixel depth that the compositor converts.
pub const RGB565_BPP: u32 = 16;

/// Geometry and depth of one decoded block: its top-left corner in the
/// destination, its extent in pixels, and the bits per source pixel.
#[derive(Clone, Copy, Debug, PartialEq, Eq, Structural)]
pub struct Rect {
    pub x: usize,
    pub y: usize,
    pub width: usize,
    pub height: usize,
    pub bpp: u32,
}

/// Why a block was not written.
#[derive(Clone, Copy, Debug, PartialEq, Eq, Structural)]
pub enum CompositeError {
    /// The block reaches past the right or bottom edge of the framebuffer.
    OutOfBounds,
    /// The block's pixels are not 16-bit RGB565.
    UnsupportedPixelFormat,
}

/// What a framebuffer holds: its dimensions and its cells in row-major order.
pub struct FrameView {
    pub width: nat,
    pub height: nat,
    pub cells: Seq<u32>,
}

/// A row-major buffer of packed 0x00RRGGBB cells with a fixed size.
pub struct Framebuffer {
    width: usize,
    height: usize,
    cells: Vec<u32>,
}

impl View for Framebuffer {
    type V = FrameView;

    closed spec fn view(&self) -> FrameView {
        FrameView { width: self.width as nat, height: self.height as nat, cells: self.cells@ }
    }
}

/// The block lies wholly inside a `fbw` by `fbh` framebuffer.
pub open spec fn fits(r: Rect, fbw: nat, fbh: nat) -> bool {
    r.x + r.width <= fbw && r.y + r.height <= fbh
}

/// Destination cell `i` of a framebuffer `fbw` cells wide lies under the block.
pub open spec fn covers(r: Rect, fbw: nat, i: int) -> bool {
    &&& r.y <= i / (fbw as int) < r.y + r.height
    &&& r.x <= i % (fbw as int) < r.x + r.width
}

/// Index into the block's own pixels of the pixel that lands on cell `i`.
pub open spec fn source_index(r: Rect, fbw: nat, i: int) -> int {
    (i / (fbw as int) - r.y) * r.width + (i % (fbw as int) - r.x)
}

/// Cell `i` is under the block and comes before (row, col) of the block in
/// row-major order.
pub open spec fn written_before(r: Rect, fbw: nat, i: int, row: int, col: int) -> bool {
    &&& covers(r, fbw, i)
    &&& (i / (fbw as int) - r.y < row || (i / (fbw as int) - r.y == row && i % (fbw as int)
        - r.x < col))
}

/// `cells` with the block's pixels before (row, col) converted into place.
pub open spec fn composited_upto(
    cells: Seq<u32>,
    fbw: nat,
    r: Rect,
    pixels: Seq<u16>,
    row: int,
    col: int,
) -> Seq<u32> {
    Seq::new(
        cells.len(),
        |i: int|
            if written_before(r, fbw, i, row, col) {
                rgb565_to_cell(pixels[source_index(r, fbw, i)])
            } else {
                cells[i]
            },
    )
}

/// `cells` with every pixel of the block converted into place.
pub open spec fn composited(cells: Seq<u32>, fbw: nat, r: Rect, pixels: Seq<u16>) -> Seq<u32> {
    Seq::new(
        cells.len(),
        |i: int|
            if covers(r, fbw, i) {
                rgb565_to_cell(pixels[source_index(r, fbw, i)])
            } else {
                cells[i]
            },
    )
}

/// What compositing the block does to a framebuffer `fbw` by `fbh`.
pub open spec fn composite_result(r: Rect, fbw: nat, fbh: nat) -> Result<(), CompositeError> {
    if !fits(r, fbw, fbh) {
        Err(CompositeError::OutOfBounds)
    } else if r.bpp != RGB565_BPP {
        Err(CompositeError::UnsupportedPixelFormat)
    } else {
        Ok(())
    }
}

/// Cell `row`, `col` of a framebuffer `fbw` wide sits at `row * fbw + col`.
proof fn lemma_cell_position(fbw: int, row: int, col: int)
    requires
        0 <= row,
        0 <= col < fbw,
    ensures
        (row * fbw + col) / fbw == row,
        (row * fbw + col) % fbw == col,
{
    lemma_fundamental_div_mod_converse(row * fbw + col, fbw, row, col);
}

/// Every cell index is its row times the width plus its column.
proof fn lemma_cell_identity(fbw: int, i: int)
    requires
        fbw > 0,
    ensures
        i == (i / fbw) * fbw + i % fbw,
{
    lemma_fundamental_div_mod(i, fbw);
    assert(fbw * (i / fbw) == (i / fbw) * fbw) by (nonlinear_arith);
}

/// Offset `row * fbw + col` of a cell inside an `fbw` by `fbh` buffer lies
/// below `fbw * fbh`.
proof fn lemma_offset_in_bounds(fbw: int, fbh: int, row: int, col: int)
    requires
        0 <= row < fbh,
        0 <= col < fbw,
    ensures
        0 <= row * fbw + col < fbw * fbh,
{
    lemma_mul_inequality(row, fbh - 1, fbw);
    lemma_mul_inequality(0, row, fbw);
    assert((fbh - 1) * fbw == fbw * fbh - fbw) by (nonlinear_arith);
}

/// Destination offset of pixel (`row`, `col`) of the block.
pub open spec fn dest_offset(r: Rect, fbw: nat, row: int, col: int) -> int {
    (r.y + row) * (fbw as int) + (r.x + col)
}

/// Compositing a block that fits writes each of its `width * height` pixels,
/// converted, at its own destination offset inside the framebuffer; distinct
/// pixels land on distinct cells; the cells under the block are exactly those
/// offsets; every other cell keeps its value.
pub proof fn lemma_composite_writes_block(
    cells: Seq<u32>,
    fbw: nat,
    fbh: nat,
    r: Rect,
    pixels: Seq<u16>,
)
    requires
        fits(r, fbw, fbh),
        cells.len() == fbw * fbh,
        pixels.len() == r.width * r.height,
    ensures
        forall|row: int, col: int|
            0 <= row < r.height && 0 <= col < r.width ==> {
                &&& 0 <= #[trigger] dest_offset(r, fbw, row, col) < cells.len()
                &&& composited(cells, fbw, r, pixels)[dest_offset(r, fbw, row, col)]
                    == rgb565_to_cell(pixels[row * r.width + col])
            },
        forall|r1: int, c1: int, r2: int, c2: int|
            0 <= r1 < r.height && 0 <= c1 < r.width && 0 <= r2 < r.height && 0 <= c2 < r.width
                && #[trigger] dest_offset(r, fbw, r1, c1) == #[trigger] dest_offset(r, fbw, r2, c2)
                ==> r1 == r2 && c1 == c2,
        forall|i: int|
            0 <= i < cells.len() ==> (covers(r, fbw, i) <==> exists|row: int, col: int|
                0 <= row < r.height && 0 <= col < r.width && i == #[trigger] dest_offset(r, fbw, row, col)),
        forall|i: int|
            0 <= i < cells.len() && !covers(r, fbw, i) ==> #[trigger] composited(cells, fbw, r, pixels)[i]
                == cells[i],
{
    let w = fbw as int;
    assert forall|row: int, col: int|
        0 <= row < r.height && 0 <= col < r.width implies {
            &&& 0 <= #[trigger] dest_offset(r, fbw, row, col) < cells.len()
            &&& composited(cells, fbw, r, pixels)[dest_offset(r, fbw, row, col)]
                == rgb565_to_cell(pixels[row * r.width + col])
        } by {
        lemma_offset_in_bounds(w, fbh as int, r.y + row, r.x + col);
        lemma_cell_position(w, r.y + row, r.x + col);
    }
    assert forall|r1: int, c1: int, r2: int, c2: int|
        0 <= r1 < r.height && 0 <= c1 < r.width && 0 <= r2 < r.height && 0 <= c2 < r.width
            && #[trigger] dest_offset(r, fbw, r1, c1) == #[trigger] dest_offset(r, fbw, r2, c2)
            implies r1 == r2 && c1 == c2 by {
        lemma_cell_position(w, r.y + r1, r.x + c1);
        lemma_cell_position(w, r.y + r2, r.x + c2);
    }
    assert forall|i: int|
        0 <= i < cells.len() implies (covers(r, fbw, i) <==> exists|row: int, col: int|
            0 <= row < r.height && 0 <= col < r.width && i == #[trigger] dest_offset(r, fbw, row, col)) by {
        if covers(r, fbw, i) {
            lemma_cell_identity(w, i);
            let row = i / w - r.y;
            let col = i % w - r.x;
            assert(i == dest_offset(r, fbw, row, col));
        }
        if exists|row: int, col: int|
            0 <= row < r.height && 0 <= col < r.width && i == #[trigger] dest_offset(r, fbw, row, col) {
            let (row, col) = choose|row: int, col: int|
                0 <= row < r.height && 0 <= col < r.width && i == #[trigger] dest_offset(r, fbw, row, col);
            lemma_cell_position(w, r.y + row, r.x + col);
        }
    }
}

impl Framebuffer {
    /// The framebuffer's size agrees with its cells.
    pub open spec fn wf(&self) -> bool {
        self@.cells.len() == self@.width * self@.height
    }

    /// A `width` by `height` framebuffer with every cell zero.
    pub fn new(width: usize, height: usize) -> (fb: Framebuffer)
        requires
            width * height <= usize::MAX,
        ensures
            fb.wf(),
            fb@.width == width,
            fb@.height == height,
            fb@.cells == Seq::new((width * height) as nat, |i: int| 0u32),
    {
        let n = width * height;
        let mut cells: Vec<u32> = Vec::with_capacity(n);
        let mut k: usize = 0;
        while k < n
            invariant
                k <= n,
                n == width * height,
                cells@ == Seq::new(k as nat, |i: int| 0u32),
            decreases n - k,
        {
            cells.push(0u32);
            k = k + 1;
            assert(cells@ =~= Seq::new(k as nat, |i: int| 0u32));
        }
        Framebuffer { width, height, cells }
    }

    pub fn width(&self) -> (r: usize)
        ensures
            r == self@.width,
    {
        self.width
    }

    pub fn height(&self) -> (r: usize)
        ensures
            r == self@.height,
    {
        self.height
    }

    /// The cells, row by row.
    pub fn cells(&self) -> (r: &[u32])
        ensures
            r@ == self@.cells,
    {
        self.cells.as_slice()
    }

    /// The cell at column `col` of row `row`.
    pub fn cell(&self, col: usize, row: usize) -> (r: u32)
        requires
            self.wf(),
            col < self@.width,
            row < self@.height,
        ensures
            r == self@.cells[row * self@.width + col],
    {
        let len = self.cells.len();
        proof {
            lemma_offset_in_bounds(self.width as int, self.height as int, row as int, col as int);
        }
        self.cells[row * self.width + col]
    }

    /// Converts each RGB565 pixel of a decoded block and writes it at the
    /// block's position. A block that does not fit, or whose pixels are not
    /// 16-bit, leaves the framebuffer untouched.
    pub fn composite(&mut self, r: &Rect, pixels: &[u16]) -> (res: Result<(), CompositeError>)
        requires
            old(self).wf(),
            pixels@.len() == r.width * r.height,
        ensures
            final(self).wf(),
            final(self)@.width == old(self)@.width,
            final(self)@.height == old(self)@.height,
            res == composite_result(*r, old(self)@.width, old(self)@.height),
            res is Ok ==> final(self)@.cells == composited(
                old(self)@.cells,
                old(self)@.width,
                *r,
                pixels@,
            ),
            res is Err ==> final(self)@.cells == old(self)@.cells,
    {
        if r.width > self.width || r.x > self.width - r.width || r.height > self.height || r.y
            > self.height - r.height {
            return Err(CompositeError::OutOfBounds);
        }
        if r.bpp != RGB565_BPP {
            return Err(CompositeError::UnsupportedPixelFormat);
        }
        let ghost start = self.cells@;
        let ghost fbw = self.width as int;
        let mut row: usize = 0;
        while row < r.height
            invariant
                self.wf(),
                self.width == fbw,
                self.height == old(self)@.height,
                start == old(self)@.cells,
                fits(*r, self.width as nat, self.height as nat),
                pixels@.len() == r.width * r.height,
                row <= r.height,
                self.cells@ == composited_upto(start, fbw as nat, *r, pixels@, row as int, 0),
            decreases r.height - row,
        {
            let mut col: usize = 0;
            while col < r.width
                invariant
                    self.wf(),
                    self.width == fbw,
                    self.height == old(self)@.height,
                    fits(*r, self.width as nat, self.height as nat),
                    pixels@.len() == r.width * r.height,
                    row < r.height,
                    col <= r.width,
                    self.cells@ == composited_upto(start, fbw as nat, *r, pixels@, row as int, col as int),
                decreases r.width - col,
            {
                let len = self.cells.len();
                let plen = pixels.len();
                proof {
                    lemma_offset_in_bounds(fbw, self.height as int, r.y + row, r.x + col);
                    lemma_offset_in_bounds(r.width as int, r.height as int, row as int, col as int);
                    lemma_cell_position(fbw, r.y + row, r.x + col);
                }
                let dst = (r.y + row) * self.width + (r.x + col);
                let src = row * r.width + col;
                let v = convert(pixels[src]);
                self.cells.set(dst, v);
                proof {
                    assert forall|i: int| 0 <= i < start.len() implies #[trigger] self.cells@[i]
                        == composited_upto(start, fbw as nat, *r, pixels@, row as int, col + 1)[i] by {
                        if i != dst {
                            lemma_cell_identity(fbw, i);
                            if written_before(*r, fbw as nat, i, row as int, col + 1) {
                                assert(i / fbw - r.y == row ==> i % fbw - r.x != col);
                            }
                        }
                    }
                    assert(self.cells@ =~= composited_upto(start, fbw as nat, *r, pixels@, row as int, col + 1));
                }
                col = col + 1;
            }
            assert(self.cells@ =~= composited_upto(start, fbw as nat, *r, pixels@, row + 1, 0));
            row = row + 1;
        }
        assert(self.cells@ =~= composited(start, fbw as nat, *r, pixels@));
        Ok(())
    }
}

} // verus!

use vstd::prelude::*;
use crate::color::Rgb;
use crate::error::{OutOfBounds, SizeMismatch};

verus! {

/// Number of entries in every palette.
pub const PALETTE_SIZE: usize = 256;

/// The mathematical content of a [`Screen`]: its dimensions, the palette
/// index held by every cell in row-major order, and the palette.
pub struct ScreenView {
    pub width: nat,
    pub height: nat,
    pub cells: Seq<u8>,
    pub palette: Seq<Rgb>,
}

impl ScreenView {
    /// Both dimensions are positive, there is one cell per coordinate and
    /// the palette has exactly 256 entries.
    pub open spec fn wf(self) -> bool {
        &&& self.width > 0
        &&& self.height > 0
        &&& self.cells.len() == self.width * self.height
        &&& self.palette.len() == PALETTE_SIZE
    }

    /// The coordinate lies on the screen.
    pub open spec fn in_range(self, x: int, y: int) -> bool {
        0 <= x < self.width && 0 <= y < self.height
    }

    /// Position of the cell at `(x, y)` in the row-major cell sequence.
    pub open spec fn offset(self, x: int, y: int) -> int {
        x + self.width * y
    }

    /// A freshly allocated screen: every cell holds index 0 and every
    /// palette entry is black.
    pub open spec fn blank(width: nat, height: nat) -> ScreenView {
        ScreenView {
            width,
            height,
            cells: Seq::new(width * height, |i: int| 0u8),
            palette: Seq::new(PALETTE_SIZE as nat, |i: int| Rgb::black()),
        }
    }

    /// The palette index stored at `(x, y)`.
    pub open spec fn get_pixel(self, x: int, y: int) -> u8 {
        self.cells[self.offset(x, y)]
    }

    /// The screen after storing `color` at `(x, y)`.
    pub open spec fn set_pixel(self, x: int, y: int, color: u8) -> ScreenView {
        ScreenView { cells: self.cells.update(self.offset(x, y), color), ..self }
    }

    /// The screen after every cell has been set to `color`.
    pub open spec fn clear(self, color: u8) -> ScreenView {
        ScreenView { cells: Seq::new(self.cells.len(), |i: int| color), ..self }
    }

    /// The colour of palette entry `index`.
    pub open spec fn palette_entry(self, index: u8) -> Rgb {
        self.palette[index as int]
    }

    /// The screen after palette entry `index` has been overwritten.
    pub open spec fn set_palette(self, index: u8, color: Rgb) -> ScreenView {
        ScreenView { palette: self.palette.update(index as int, color), ..self }
    }

    /// Number of bytes in the RGBA rendering of the screen.
    pub open spec fn rgba_len(self) -> nat {
        4 * self.width * self.height
    }

    /// The RGBA rendering: four bytes per cell in cell order, the three
    /// components of the cell's palette entry followed by 255.
    pub open spec fn rgba(self) -> Seq<u8> {
        Seq::new(
            4 * self.cells.len(),
            |i: int| self.palette[self.cells[i / 4] as int].channel(i % 4),
        )
    }
}

/// Every in-range coordinate has its own cell inside the cell sequence.
pub proof fn lemma_offset_in_bounds(width: nat, height: nat, x: int, y: int)
    requires
        0 <= x < width,
        0 <= y < height,
    ensures
        0 <= x + width * y < width * height,
        width * y <= width * height - width,
{
    assert(width * y <= width * (height - 1)) by (nonlinear_arith)
        requires
            0 <= y <= height - 1,
            0 <= width,
    ;
    assert(width * (height - 1) == width * height - width) by (nonlinear_arith);
    assert(0 <= width * y) by (nonlinear_arith)
        requires
            0 <= y,
            0 <= width,
    ;
}

/// Two in-range coordinates share a cell only if they are the same
/// coordinate.
pub proof fn lemma_offset_injective(width: nat, height: nat, x1: int, y1: int, x2: int, y2: int)
    requires
        0 <= x1 < width,
        0 <= y1 < height,
        0 <= x2 < width,
        0 <= y2 < height,
        x1 + width * y1 == x2 + width * y2,
    ensures
        x1 == x2,
        y1 == y2,
{
    if y1 < y2 {
        assert(width * y2 >= width * y1 + width) by (nonlinear_arith)
            requires
                y2 >= y1 + 1,
                0 <= width,
        ;
    } else if y2 < y1 {
        assert(width * y1 >= width * y2 + width) by (nonlinear_arith)
            requires
                y1 >= y2 + 1,
                0 <= width,
        ;
    }
}

/// Writing a palette entry and reading it back gives the colour written;
/// every other entry, every cell and the dimensions stay as they were.
pub proof fn lemma_palette_write_then_read(s: ScreenView, index: u8, color: Rgb)
    requires
        s.wf(),
    ensures
        s.set_palette(index, color).wf(),
        s.set_palette(index, color).palette_entry(index) == color,
        forall|other: u8|
            other != index ==> #[trigger] s.set_palette(index, color).palette_entry(other)
                == s.palette_entry(other),
        s.set_palette(index, color).cells == s.cells,
{
}

/// Writing an in-range cell and reading it back gives the index written;
/// every other cell of the screen and the whole palette stay as they were.
pub proof fn lemma_pixel_write_then_read(s: ScreenView, x: int, y: int, color: u8)
    requires
        s.wf(),
        s.in_range(x, y),
    ensures
        s.set_pixel(x, y, color).wf(),
        s.set_pixel(x, y, color).get_pixel(x, y) == color,
        forall|x2: int, y2: int|
            s.in_range(x2, y2) && (x2 != x || y2 != y) ==> #[trigger] s.set_pixel(
                x,
                y,
                color,
            ).get_pixel(x2, y2) == s.get_pixel(x2, y2),
        s.set_pixel(x, y, color).palette == s.palette,
{
    lemma_offset_in_bounds(s.width, s.height, x, y);
    assert forall|x2: int, y2: int| s.in_range(x2, y2) && (x2 != x || y2 != y) implies #[trigger] s.set_pixel(
        x,
        y,
        color,
    ).get_pixel(x2, y2) == s.get_pixel(x2, y2) by {
        lemma_offset_in_bounds(s.width, s.height, x2, y2);
        if s.offset(x2, y2) == s.offset(x, y) {
            lemma_offset_injective(s.width, s.height, x, y, x2, y2);
        }
    }
}

/// After a clear every in-range cell reads as the colour cleared to, and
/// the palette stays as it was.
pub proof fn lemma_clear_then_read(s: ScreenView, color: u8, x: int, y: int)
    requires
        s.wf(),
        s.in_range(x, y),
    ensures
        s.clear(color).wf(),
        s.clear(color).get_pixel(x, y) == color,
        s.clear(color).palette == s.palette,
{
    lemma_offset_in_bounds(s.width, s.height, x, y);
}

/// The layout of the RGBA rendering: it has four bytes per cell, and the
/// bytes of the cell at an in-range `(x, y)` start at `4 * (x + width * y)`
/// and are the red, green and blue of the cell's palette entry, then 255.
pub proof fn lemma_rgba_layout(s: ScreenView, x: int, y: int)
    requires
        s.wf(),
        s.in_range(x, y),
    ensures
        s.rgba().len() == s.rgba_len(),
        0 <= 4 * (x + s.width * y) && 4 * (x + s.width * y) + 3 < s.rgba().len(),
        s.rgba()[4 * (x + s.width * y)] == s.palette_entry(s.get_pixel(x, y)).0,
        s.rgba()[4 * (x + s.width * y) + 1] == s.palette_entry(s.get_pixel(x, y)).1,
        s.rgba()[4 * (x + s.width * y) + 2] == s.palette_entry(s.get_pixel(x, y)).2,
        s.rgba()[4 * (x + s.width * y) + 3] == 255,
{
    lemma_offset_in_bounds(s.width, s.height, x, y);
    assert(4 * s.width * s.height == 4 * (s.width * s.height)) by (nonlinear_arith);
}

/// The rendering of a cleared screen repeats one group of four bytes: the
/// palette entry of the colour cleared to, then 255.
pub proof fn lemma_clear_rgba(s: ScreenView, color: u8, i: int)
    requires
        s.wf(),
        0 <= i < s.rgba_len(),
    ensures
        s.clear(color).rgba().len() == s.rgba_len(),
        s.clear(color).rgba()[i] == s.palette_entry(color).channel(i % 4),
{
    assert(4 * s.width * s.height == 4 * (s.width * s.height)) by (nonlinear_arith);
}

/// A paletted framebuffer: a `width` by `height` grid of palette indices
/// together with the 256-entry palette that gives them colour.
#[derive(Debug)]
pub struct Screen {
    width: usize,
    height: usize,
    screen: Vec<u8>,
    palette: Vec<Rgb>,
}

impl View for Screen {
    type V = ScreenView;

    closed spec fn view(&self) -> ScreenView {
        ScreenView {
            width: self.width as nat,
            height: self.height as nat,
            cells: self.screen@,
            palette: self.palette@,
        }
    }
}

impl Clone for Screen {
    fn clone(&self) -> (s: Screen)
        ensures
            s@ == self@,
    {
        proof {
            use_type_invariant(self);
        }
        let screen = self.screen.clone();
        let palette = self.palette.clone();
        assert(screen@ =~= self.screen@);
        assert(palette@ =~= self.palette@);
        Screen { width: self.width, height: self.height, screen, palette }
    }
}

impl Screen {
    /// Holds of every screen that executable code can get hold of.
    #[verifier::type_invariant]
    pub open spec fn inv(self) -> bool {
        self@.wf()
    }

    /// Allocates a screen of the given size with every cell at index 0 and
    /// an all-black palette.
    pub fn new(width: usize, height: usize) -> (s: Screen)
        requires
            width != 0,
            height != 0,
            width * height <= usize::MAX,
        ensures
            s@ == ScreenView::blank(width as nat, height as nat),
            s@.wf(),
    {
        let cells: Vec<u8> = vec![0u8; width * height];
        let palette: Vec<Rgb> = vec![Rgb(0, 0, 0); PALETTE_SIZE];
        let s = Screen { width, height, screen: cells, palette };
        assert(s@.cells =~= ScreenView::blank(width as nat, height as nat).cells);
        assert(s@.palette =~= ScreenView::blank(width as nat, height as nat).palette);
        s
    }

    /// Width of the screen in cells.
    pub fn width(&self) -> (w: usize)
        ensures
            w == self@.width,
            w > 0,
    {
        proof {
            use_type_invariant(self);
        }
        self.width
    }

    /// Height of the screen in cells.
    pub fn height(&self) -> (h: usize)
        ensures
            h == self@.height,
            h > 0,
    {
        proof {
            use_type_invariant(self);
        }
        self.height
    }

    /// Whether `(x, y)` names a cell of this screen.
    pub fn contains(&self, x: usize, y: usize) -> (b: bool)
        ensures
            b == self@.in_range(x as int, y as int),
        no_unwind
    {
        x < self.width && y < self.height
    }

    /// Sets every cell to `color`.
    pub fn cls(&mut self, color: u8)
        ensures
            final(self)@ == old(self)@.clear(color),
        no_unwind
    {
        proof {
            use_type_invariant(&*self);
        }
        let n = self.screen.len();
        let mut i: usize = 0;
        while i < n
            invariant
                i <= n,
                n == self.screen@.len(),
                self.width == old(self).width,
                self.height == old(self).height,
                self.palette == old(self).palette,
                self.screen@.len() == old(self).screen@.len(),
                self@.wf(),
                forall|j: int| 0 <= j < i ==> self.screen@[j] == color,
            decreases n - i,
        {
            self.screen[i] = color;
            i = i + 1;
        }
        assert(self@.cells =~= old(self)@.clear(color).cells);
    }

    /// Reads the palette index stored at `(x, y)`.
    pub fn pget(&self, x: usize, y: usize) -> (color: u8)
        requires
            self@.in_range(x as int, y as int),
        ensures
            color == self@.get_pixel(x as int, y as int),
    {
        proof {
            use_type_invariant(self);
            lemma_offset_in_bounds(self.width as nat, self.height as nat, x as int, y as int);
            assert(self.screen@.len() == self.width * self.height);
            assert(self.screen.len() == self.screen@.len());
        }
        self.screen[x + self.width * y]
    }

    /// Stores `color` at `(x, y)`; no other cell and no palette entry changes.
    pub fn pset(&mut self, x: usize, y: usize, color: u8)
        requires
            old(self)@.in_range(x as int, y as int),
        ensures
            final(self)@ == old(self)@.set_pixel(x as int, y as int, color),
        no_unwind
    {
        proof {
            use_type_invariant(&*self);
            lemma_offset_in_bounds(self.width as nat, self.height as nat, x as int, y as int);
            assert(self.screen@.len() == self.width * self.height);
            assert(self.screen.len() == self.screen@.len());
        }
        let at = x + self.width * y;
        self.screen[at] = color;
    }

    /// Overwrites palette entry `index` with `color`; no cell changes.
    pub fn pal(&mut self, index: u8, color: Rgb)
        ensures
            final(self)@ == old(self)@.set_palette(index, color),
        no_unwind
    {
        proof {
            use_type_invariant(&*self);
        }
        self.palette[index as usize] = color;
    }

    /// Reads palette entry `index`.
    pub fn palette_entry(&self, index: u8) -> (color: Rgb)
        ensures
            color == self@.palette_entry(index),
    {
        proof {
            use_type_invariant(self);
        }
        self.palette[index as usize]
    }

    /// Reads the cell at `(x, y)`, or reports the coordinate when it is
    /// off the screen.
    pub fn get_pixel(&self, x: usize, y: usize) -> (r: Result<u8, OutOfBounds>)
        ensures
            self@.in_range(x as int, y as int) ==> r == Ok::<u8, OutOfBounds>(
                self@.get_pixel(x as int, y as int),
            ),
            !self@.in_range(x as int, y as int) ==> r == Err::<u8, OutOfBounds>(
                OutOfBounds { x, y, width: self@.width as usize, height: self@.height as usize },
            ),
    {
        if self.contains(x, y) {
            Ok(self.pget(x, y))
        } else {
            Err(OutOfBounds { x, y, width: self.width, height: self.height })
        }
    }

    /// Writes the cell at `(x, y)`, or reports the coordinate and leaves
    /// the screen untouched when it is off the screen.
    pub fn set_pixel(&mut self, x: usize, y: usize, color: u8) -> (r: Result<(), OutOfBounds>)
        ensures
            old(self)@.in_range(x as int, y as int) ==> r is Ok && final(self)@ == old(self)@.set_pixel(
                x as int,
                y as int,
                color,
            ),
            !old(self)@.in_range(x as int, y as int) ==> final(self)@ == old(self)@ && r == Err::<
                (),
                OutOfBounds,
            >(
                OutOfBounds {
                    x,
                    y,
                    width: old(self)@.width as usize,
                    height: old(self)@.height as usize,
                },
            ),
        no_unwind
    {
        if self.contains(x, y) {
            self.pset(x, y, color);
            Ok(())
        } else {
            Err(OutOfBounds { x, y, width: self.width, height: self.height })
        }
    }

    /// Whether a buffer of `len` bytes holds exactly four bytes per cell.
    pub fn fits(&self, len: usize) -> (b: bool)
        ensures
            b == (len == self@.rgba_len()),
    {
        proof {
            use_type_invariant(self);
            assert(self.screen.len() == self.screen@.len());
            assert(4 * self.width * self.height == 4 * (self.width * self.height)) by (nonlinear_arith);
        }
        len % 4 == 0 && len / 4 == self.screen.len()
    }

    /// Renders the screen into `out` as RGBA bytes: for every cell, in
    /// row-major order, the three components of its palette entry
    /// followed by 255. A buffer of the wrong length is rejected and left
    /// exactly as it was.
    pub fn draw(&self, out: &mut [u8]) -> (r: Result<(), SizeMismatch>)
        ensures
            old(out)@.len() == self@.rgba_len() ==> r is Ok && final(out)@ == self@.rgba(),
            old(out)@.len() != self@.rgba_len() ==> final(out)@ == old(out)@ && r == Err::<
                (),
                SizeMismatch,
            >(
                SizeMismatch {
                    width: self@.width as usize,
                    height: self@.height as usize,
                    actual: old(out)@.len() as usize,
                },
            ),
    {
        proof {
            use_type_invariant(self);
            assert(self.screen.len() == self.screen@.len());
            assert(4 * self.width * self.height == 4 * (self.width * self.height)) by (nonlinear_arith);
        }
        if !self.fits(out.len()) {
            return Err(SizeMismatch { width: self.width, height: self.height, actual: out.len() });
        }
        let n = self.screen.len();
        assert(out.len() == out@.len());
        let mut i: usize = 0;
        while i < n
            invariant
                i <= n,
                n == self.screen@.len(),
                self@.wf(),
                out@.len() == 4 * n,
                4 * n <= usize::MAX,
                forall|j: int| 0 <= j < 4 * i ==> out@[j] == self@.rgba()[j],
            decreases n - i,
        {
            let color = self.palette[self.screen[i] as usize];
            let at = 4 * i;
            out[at] = color.0;
            out[at + 1] = color.1;
            out[at + 2] = color.2;
            out[at + 3] = 255;
            i = i + 1;
        }
        assert(out@ =~= self@.rgba());
        Ok(())
    }
}

} // verus!

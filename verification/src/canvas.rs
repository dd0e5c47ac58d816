//! The pixel buffer.
//!
//! A [`Canvas`] owns a row-major grid of colors, addressable over
//! `[0, width) x [0, height)`. Pixels start black; `write_pixel` and
//! `read_pixel` are the whole interface the renderer needs.

use vstd::prelude::*;

use crate::color::{Col3, Color};

verus! {

/// Anything with a pixel grid.
pub trait Rectangle {
    /// Pixels per row.
    fn width(&self) -> usize;

    /// Pixels per column.
    fn height(&self) -> usize;
}

/// A row-major pixel buffer.
pub struct Canvas {
    pub width: usize,
    pub height: usize,
    pub pixels: Vec<Color>,
}

impl View for Canvas {
    type V = Seq<Color>;

    closed spec fn view(&self) -> Seq<Color> {
        self.pixels@
    }
}

/// The buffer position of pixel `(x, y)`.
pub open spec fn pixel_index(width: int, x: int, y: int) -> int {
    y * width + x
}

impl Canvas {
    /// The buffer holds one color per pixel of the grid.
    pub closed spec fn wf(&self) -> bool {
        self.pixels@.len() == self.width * self.height
    }

    /// A canvas of the given size with every pixel black.
    pub fn new(width: usize, height: usize) -> (r: Canvas)
        requires
            width * height <= usize::MAX,
        ensures
            r.wf(),
            r.width == width,
            r.height == height,
            r@.len() == width * height,
            forall|i: int|
                0 <= i < r@.len() ==> r@[i]@ == (Col3 { red: 0, green: 0, blue: 0 }),
    {
        let count: usize = width * height;
        let mut pixels: Vec<Color> = Vec::new();
        let mut i: usize = 0;
        while i < count
            invariant
                i <= count,
                pixels@.len() == i,
                forall|k: int|
                    0 <= k < i ==> pixels@[k]@ == (Col3 { red: 0, green: 0, blue: 0 }),
            decreases count - i,
        {
            pixels.push(Color::black());
            i = i + 1;
        }
        Canvas { width, height, pixels }
    }

    /// Set the color of pixel `(x, y)`.
    pub fn write_pixel(&mut self, x: usize, y: usize, c: Color)
        requires
            old(self).wf(),
            x < old(self).width,
            y < old(self).height,
        ensures
            final(self).wf(),
            final(self).width == old(self).width,
            final(self).height == old(self).height,
            final(self)@ == old(self)@.update(
                pixel_index(old(self).width as int, x as int, y as int),
                c,
            ),
    {
        let buf_len = self.pixels.len();
        proof {
            lemma_pixel_index_bounds(self.width as int, self.height as int, x as int, y as int);
        }
        let idx: usize = y * self.width + x;
        self.pixels.set(idx, c);
    }

    /// The color of pixel `(x, y)`.
    pub fn read_pixel(&self, x: usize, y: usize) -> (c: Color)
        requires
            self.wf(),
            x < self.width,
            y < self.height,
        ensures
            c == self@[pixel_index(self.width as int, x as int, y as int)],
    {
        let buf_len = self.pixels.len();
        proof {
            lemma_pixel_index_bounds(self.width as int, self.height as int, x as int, y as int);
        }
        self.pixels[y * self.width + x]
    }
}

impl Canvas {
    /// How many pixels the buffer holds.
    pub fn pixel_count(&self) -> (r: usize)
        ensures
            r == self@.len(),
    {
        self.pixels.len()
    }

    /// The color at buffer position `i`, row major.
    pub fn pixel_at(&self, i: usize) -> (c: Color)
        requires
            i < self@.len(),
        ensures
            c == self@[i as int],
    {
        self.pixels[i]
    }
}

impl Rectangle for Canvas {
    fn width(&self) -> (r: usize)
        ensures
            r == self.width,
    {
        self.width
    }

    fn height(&self) -> (r: usize)
        ensures
            r == self.height,
    {
        self.height
    }
}

/// A pixel inside the grid has its buffer position inside the buffer.
proof fn lemma_pixel_index_bounds(width: int, height: int, x: int, y: int)
    by (nonlinear_arith)
    requires
        0 <= x < width,
        0 <= y < height,
    ensures
        0 <= y * width + x < width * height,
        y * width + x <= (height - 1) * width + (width - 1),
{
}

} // verus!

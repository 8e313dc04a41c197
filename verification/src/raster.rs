use vstd::prelude::*;

use crate::color::Color;

verus! {

/// A rectangular pixel grid, stored row-major (rows top to bottom, each row
/// left to right). Both a decoded video frame and the assembled barcode
/// image are values of this type.
#[derive(Clone, Debug, PartialEq, Eq)]
pub struct Raster {
    width: usize,
    height: usize,
    pixels: Vec<Color>,
}

impl Raster {
    /// The grid invariant: the pixel vector holds exactly one color per cell.
    pub open spec fn wf(self) -> bool {
        self.spec_pixels().len() == self.spec_width() * self.spec_height()
    }

    /// Number of columns.
    pub closed spec fn spec_width(self) -> int {
        self.width as int
    }

    /// Number of rows.
    pub closed spec fn spec_height(self) -> int {
        self.height as int
    }

    /// Total number of pixels.
    pub open spec fn spec_pixel_count(self) -> int {
        self.spec_width() * self.spec_height()
    }

    /// The pixels in row-major order.
    pub closed spec fn spec_pixels(self) -> Seq<Color> {
        self.pixels@
    }

    /// The color of the cell in column `col` of row `row`.
    pub open spec fn spec_pixel_at(self, col: int, row: int) -> Color {
        self.spec_pixels()[row * self.spec_width() + col]
    }

    /// Builds a raster from its dimensions and row-major pixels; yields
    /// nothing when the vector does not hold exactly `width * height` colors.
    pub fn new(width: usize, height: usize, pixels: Vec<Color>) -> (r: Option<Raster>)
        ensures
            r is Some <==> pixels@.len() == width * height,
            (r matches Some(f) ==> f.wf() && f.spec_width() == width && f.spec_height() == height
                && f.spec_pixels() == pixels@),
    {
        let len = pixels.len();
        match width.checked_mul(height) {
            Some(n) if n == len => Some(Raster { width, height, pixels }),
            _ => None,
        }
    }

    /// Builds a raster without the run-time check; for callers that have
    /// already established the grid invariant.
    pub(crate) fn from_parts(width: usize, height: usize, pixels: Vec<Color>) -> (r: Raster)
        requires
            pixels@.len() == width * height,
        ensures
            r.wf() && r.spec_width() == width && r.spec_height() == height
                && r.spec_pixels() == pixels@,
    {
        Raster { width, height, pixels }
    }

    /// Builds a `width` by `height` raster in which every pixel holds
    /// `color`; yields nothing when the pixel count does not fit in memory.
    pub fn filled(width: usize, height: usize, color: Color) -> (r: Option<Raster>)
        ensures
            r is Some <==> width * height <= usize::MAX,
            (r matches Some(f) ==> f.wf() && f.spec_width() == width && f.spec_height() == height
                && (forall|i: int| 0 <= i < f.spec_pixels().len() ==> f.spec_pixels()[i] == color)),
    {
        match width.checked_mul(height) {
            Some(n) => {
                let mut pixels: Vec<Color> = Vec::new();
                let mut i: usize = 0;
                while i < n
                    invariant
                        i <= n,
                        pixels@.len() == i,
                        forall|j: int| 0 <= j < i ==> pixels@[j] == color,
                    decreases n - i,
                {
                    pixels.push(color);
                    i = i + 1;
                }
                Some(Raster { width, height, pixels })
            },
            None => None,
        }
    }

    /// Number of columns.
    pub fn width(&self) -> (r: usize)
        ensures
            r == self.spec_width(),
    {
        self.width
    }

    /// Number of rows.
    pub fn height(&self) -> (r: usize)
        ensures
            r == self.spec_height(),
    {
        self.height
    }

    /// The pixels in row-major order.
    pub fn pixels(&self) -> (r: &Vec<Color>)
        ensures
            r@ == self.spec_pixels(),
    {
        &self.pixels
    }

    /// The color of the cell in column `col` of row `row`.
    pub fn pixel(&self, col: usize, row: usize) -> (r: Color)
        requires
            self.wf(),
            col < self.spec_width(),
            row < self.spec_height(),
        ensures
            r == self.spec_pixel_at(col as int, row as int),
    {
        let _len = self.pixels.len();
        proof {
            lemma_row_major_index_in_range(
                col as int,
                row as int,
                self.spec_width(),
                self.spec_height(),
            );
        }
        self.pixels[row * self.width + col]
    }
}

/// A row-major cell index lies inside the grid: for a column and row inside
/// the bounds, `row * width + col < width * height`.
pub proof fn lemma_row_major_index_in_range(col: int, row: int, width: int, height: int)
    by (nonlinear_arith)
    requires
        0 <= col < width,
        0 <= row < height,
    ensures
        0 <= row * width + col < width * height,
{
}

} // verus!

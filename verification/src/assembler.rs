use vstd::prelude::*;

use crate::color::Color;
use crate::errors::BarcodeError;
use crate::raster::{lemma_row_major_index_in_range, Raster};

verus! {

/// Maps the ordered color sequence onto the fixed-size output image, one
/// color per column.
pub struct BarcodeAssembler;

impl BarcodeAssembler {
    /// Builds the `width` by `height` barcode image in which every pixel of
    /// column `c` holds `colors[c]`. Colors beyond `width` are ignored; no
    /// blending or interpolation takes place. With fewer colors than columns
    /// the image cannot be filled and the call fails, reporting how many
    /// colors were produced against how many are required.
    pub fn assemble(colors: &Vec<Color>, width: usize, height: usize) -> (r: Result<
        Raster,
        BarcodeError,
    >)
        requires
            width >= 1,
            height >= 1,
            width * height <= usize::MAX,
        ensures
            r is Ok <==> colors@.len() >= width,
            (r matches Ok(img) ==> img.wf() && img.spec_width() == width && img.spec_height()
                == height && (forall|c: int, row: int|
                0 <= c < width && 0 <= row < height ==> img.spec_pixel_at(c, row) == colors@[c])),
            (r matches Err(e) ==> e == (BarcodeError::InsufficientFrames {
                produced: colors@.len() as usize,
                required: width,
            })),
    {
        if colors.len() < width {
            return Err(
                BarcodeError::InsufficientFrames { produced: colors.len(), required: width },
            );
        }
        let mut pixels: Vec<Color> = Vec::new();
        let mut row: usize = 0;
        while row < height
            invariant
                width >= 1,
                height >= 1,
                width * height <= usize::MAX,
                colors@.len() >= width,
                row <= height,
                pixels@.len() == row * width,
                forall|k: int| 0 <= k < pixels@.len() ==> pixels@[k] == colors@[k % (width as int)],
            decreases height - row,
        {
            proof {
                assert((row + 1) * width <= height * width && height * width == width * height)
                    by (nonlinear_arith)
                    requires
                        row < height,
                        width >= 1,
                ;
            }
            let mut col: usize = 0;
            while col < width
                invariant
                    width >= 1,
                    colors@.len() >= width,
                    row < height,
                    (row + 1) * width <= width * height <= usize::MAX,
                    pixels@.len() == row * width + col,
                    col <= width,
                    forall|k: int|
                        0 <= k < pixels@.len() ==> pixels@[k] == colors@[k % (width as int)],
                decreases width - col,
            {
                proof {
                    assert(row * width + col < (row + 1) * width) by (nonlinear_arith)
                        requires
                            col < width,
                    ;
                    let w = width as int;
                    vstd::arithmetic::div_mod::lemma_mod_multiples_vanish(
                        row as int,
                        col as int,
                        w,
                    );
                    vstd::arithmetic::div_mod::lemma_small_mod(col as nat, width as nat);
                    assert(w * row == row * w) by (nonlinear_arith);
                    assert((row * w + col) % w == col);
                }
                pixels.push(colors[col]);
                col = col + 1;
            }
            row = row + 1;
            proof {
                assert(row * width == (row - 1) * width + width) by (nonlinear_arith);
            }
        }
        proof {
            assert(height * width == width * height) by (nonlinear_arith);
        }
        let img = Raster::from_parts(width, height, pixels);
        proof {
            assert forall|c: int, r2: int|
                0 <= c < width && 0 <= r2 < height implies img.spec_pixel_at(c, r2)
                == colors@[c] by {
                let w = width as int;
                lemma_row_major_index_in_range(c, r2, w, height as int);
                vstd::arithmetic::div_mod::lemma_mod_multiples_vanish(r2, c, w);
                vstd::arithmetic::div_mod::lemma_small_mod(c as nat, width as nat);
                assert(w * r2 == r2 * w) by (nonlinear_arith);
                assert((r2 * w + c) % w == c);
            }
        }
        Ok(img)
    }
}

} // verus!

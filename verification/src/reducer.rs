use vstd::prelude::*;

use crate::color::Color;
use crate::errors::BarcodeError;
use crate::raster::Raster;

verus! {

/// Sum of the red channel over a pixel sequence.
pub open spec fn sum_r(s: Seq<Color>) -> int
    decreases s.len(),
{
    if s.len() == 0 {
        0
    } else {
        sum_r(s.drop_last()) + s.last().r
    }
}

/// Sum of the green channel over a pixel sequence.
pub open spec fn sum_g(s: Seq<Color>) -> int
    decreases s.len(),
{
    if s.len() == 0 {
        0
    } else {
        sum_g(s.drop_last()) + s.last().g
    }
}

/// Sum of the blue channel over a pixel sequence.
pub open spec fn sum_b(s: Seq<Color>) -> int
    decreases s.len(),
{
    if s.len() == 0 {
        0
    } else {
        sum_b(s.drop_last()) + s.last().b
    }
}

/// The arithmetic mean `sum / count` rounded to the nearest integer, halves
/// rounding up.
pub open spec fn avg_round(sum: int, count: int) -> int {
    (2 * sum + count) / (2 * count)
}

/// The representative color of a non-empty pixel grid: each channel is the
/// rounded mean of that channel over every pixel.
pub open spec fn reduced_color(f: Raster) -> Color {
    Color {
        r: avg_round(sum_r(f.spec_pixels()), f.spec_pixel_count()) as u8,
        g: avg_round(sum_g(f.spec_pixels()), f.spec_pixel_count()) as u8,
        b: avg_round(sum_b(f.spec_pixels()), f.spec_pixel_count()) as u8,
    }
}

/// Every channel sum lies between 0 and 255 times the pixel count.
proof fn lemma_sums_bounded(s: Seq<Color>)
    ensures
        0 <= sum_r(s) <= 255 * s.len(),
        0 <= sum_g(s) <= 255 * s.len(),
        0 <= sum_b(s) <= 255 * s.len(),
    decreases s.len(),
{
    if s.len() > 0 {
        lemma_sums_bounded(s.drop_last());
    }
}

/// Over a sequence whose pixels all hold the same color, each channel sum is
/// the pixel count times that channel.
proof fn lemma_sums_uniform(s: Seq<Color>, c: Color)
    requires
        forall|i: int| 0 <= i < s.len() ==> s[i] == c,
    ensures
        sum_r(s) == s.len() * c.r,
        sum_g(s) == s.len() * c.g,
        sum_b(s) == s.len() * c.b,
    decreases s.len(),
{
    if s.len() > 0 {
        lemma_sums_uniform(s.drop_last(), c);
        let n = s.len() as int;
        assert(n * c.r == (n - 1) * c.r + c.r) by (nonlinear_arith);
        assert(n * c.g == (n - 1) * c.g + c.g) by (nonlinear_arith);
        assert(n * c.b == (n - 1) * c.b + c.b) by (nonlinear_arith);
    }
}

/// The rounded mean of `count` copies of `v` is `v` itself.
proof fn lemma_avg_round_exact(v: int, count: int)
    requires
        0 <= v,
        1 <= count,
    ensures
        avg_round(count * v, count) == v,
{
    assert(2 * (count * v) + count == v * (2 * count) + count) by (nonlinear_arith);
    vstd::arithmetic::div_mod::lemma_fundamental_div_mod_converse(
        2 * (count * v) + count,
        2 * count,
        v,
        count,
    );
}

/// The rounded mean of channel values stays inside the 8-bit range.
proof fn lemma_avg_round_in_range(sum: int, count: int)
    requires
        1 <= count,
        0 <= sum <= 255 * count,
    ensures
        0 <= avg_round(sum, count) <= 255,
{
    assert(0 <= (2 * sum + count) / (2 * count) <= 255) by (nonlinear_arith)
        requires
            1 <= count,
            0 <= sum <= 255 * count,
    ;
}

/// Reduces one decoded frame to its representative color.
pub struct ColorReducer;

impl ColorReducer {
    /// Computes, per channel, the mean intensity over every pixel of the
    /// grid, rounded to the nearest integer (halves up); a grid with zero
    /// pixels has no mean and is rejected. The mean is the plain linear
    /// arithmetic mean, not a root-mean-square: that is this library's
    /// documented aggregation choice. The channel sums are accumulated in a
    /// wide integer and divided once at the end, so no intermediate rounding
    /// or overflow biases the result.
    pub fn reduce(frame: &Raster) -> (r: Result<Color, BarcodeError>)
        requires
            frame.wf(),
        ensures
            r is Ok <==> frame.spec_pixel_count() > 0,
            (r matches Ok(c) ==> c == reduced_color(*frame)),
            (r matches Err(e) ==> e == BarcodeError::EmptyImage),
    {
        let pixels = frame.pixels();
        let n = pixels.len();
        if n == 0 {
            return Err(BarcodeError::EmptyImage);
        }
        let mut acc_r: u128 = 0;
        let mut acc_g: u128 = 0;
        let mut acc_b: u128 = 0;
        let mut i: usize = 0;
        while i < n
            invariant
                n == pixels@.len(),
                pixels@ == frame.spec_pixels(),
                i <= n,
                acc_r == sum_r(pixels@.take(i as int)),
                acc_g == sum_g(pixels@.take(i as int)),
                acc_b == sum_b(pixels@.take(i as int)),
                acc_r <= 255 * i,
                acc_g <= 255 * i,
                acc_b <= 255 * i,
            decreases n - i,
        {
            let c = pixels[i];
            proof {
                assert(pixels@.take(i + 1).drop_last() =~= pixels@.take(i as int));
                assert(pixels@.take(i + 1).last() == pixels@[i as int]);
            }
            acc_r = acc_r + c.r as u128;
            acc_g = acc_g + c.g as u128;
            acc_b = acc_b + c.b as u128;
            i = i + 1;
        }
        proof {
            assert(pixels@.take(n as int) =~= pixels@);
            assert(frame.spec_pixel_count() == n) by {
                assert(frame.wf());
            }
            lemma_sums_bounded(pixels@);
            lemma_avg_round_in_range(sum_r(pixels@), n as int);
            lemma_avg_round_in_range(sum_g(pixels@), n as int);
            lemma_avg_round_in_range(sum_b(pixels@), n as int);
        }
        let count = n as u128;
        let red = (2 * acc_r + count) / (2 * count);
        let green = (2 * acc_g + count) / (2 * count);
        let blue = (2 * acc_b + count) / (2 * count);
        Ok(Color { r: red as u8, g: green as u8, b: blue as u8 })
    }
}

/// Reducing a uniform grid gives back exactly the grid's color, whatever the
/// dimensions.
pub proof fn lemma_reduce_uniform(f: Raster, c: Color)
    requires
        f.wf(),
        f.spec_pixel_count() > 0,
        forall|i: int| 0 <= i < f.spec_pixels().len() ==> f.spec_pixels()[i] == c,
    ensures
        reduced_color(f) == c,
{
    let n = f.spec_pixel_count();
    lemma_sums_uniform(f.spec_pixels(), c);
    lemma_avg_round_exact(c.r as int, n);
    lemma_avg_round_exact(c.g as int, n);
    lemma_avg_round_exact(c.b as int, n);
}

/// Reducing a grid of a single pixel gives back exactly that pixel's color.
pub proof fn lemma_reduce_single_pixel(f: Raster)
    requires
        f.wf(),
        f.spec_width() == 1,
        f.spec_height() == 1,
    ensures
        reduced_color(f) == f.spec_pixel_at(0, 0),
{
    lemma_reduce_uniform(f, f.spec_pixels()[0]);
}

} // verus!

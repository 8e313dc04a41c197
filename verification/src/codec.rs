use vstd::prelude::*;

use crate::color::Color;
use crate::errors::BarcodeError;
use crate::raster::Raster;

verus! {

/// Relies on image::load_from_memory: it guesses the format of the encoded
/// image held in `bytes` and decodes it to a pixel grid, whose pixels are
/// yielded row by row from the top left; each is converted to its red,
/// green and blue channels. Decoding failure depends on the codec alone, so
/// nothing more is promised than that a decoded grid satisfies the raster
/// invariant.
#[verifier::external_body]
pub fn decode_frame(bytes: &[u8]) -> (r: Result<Raster, BarcodeError>)
    ensures
        (r matches Ok(f) ==> f.wf()),
        (r matches Err(e) ==> e == BarcodeError::DecodeFailed),
{
    let img = match image::load_from_memory(bytes) {
        Ok(img) => img,
        Err(_) => return Err(BarcodeError::DecodeFailed),
    };
    let (w, h) = image::GenericImageView::dimensions(&img);
    let mut pixels: Vec<Color> = Vec::new();
    for (_, _, p) in image::GenericImageView::pixels(&img) {
        pixels.push(Color { r: p[0], g: p[1], b: p[2] });
    }
    Raster::new(w as usize, h as usize, pixels).ok_or(BarcodeError::DecodeFailed)
}

/// The PNG encoding of a pixel grid: the bytes the png encoder writes, at
/// the image crate's default settings, for the grid with the given
/// dimensions and row-major pixels. A function of the grid alone.
pub uninterp spec fn png_bytes_of(width: int, height: int, pixels: Seq<Color>) -> Seq<u8>;

/// Relies on image::ImageBuffer::from_raw and ImageBuffer::write_to with the
/// PNG format: the raster's channels, flattened row-major, are encoded as a
/// PNG image held in memory. The encoder rejects exactly the grids with a
/// zero dimension, which the PNG format cannot hold; for every other grid it
/// writes the in-memory buffer, and the bytes depend on the grid alone.
#[verifier::external_body]
pub fn encode_png(img: &Raster) -> (r: Result<Vec<u8>, BarcodeError>)
    requires
        img.wf(),
        img.spec_width() <= u32::MAX,
        img.spec_height() <= u32::MAX,
    ensures
        (r matches Ok(b) ==> img.spec_width() >= 1 && img.spec_height() >= 1 && b@ == png_bytes_of(img.spec_width(), img.spec_height(), img.spec_pixels())),
        (r matches Err(e) ==> e == BarcodeError::EncodeOrWriteFailed && (img.spec_width() == 0
            || img.spec_height() == 0)),
{
    let mut raw: Vec<u8> = Vec::new();
    for c in img.pixels() {
        raw.push(c.r);
        raw.push(c.g);
        raw.push(c.b);
    }
    let buffer = match image::RgbImage::from_raw(img.width() as u32, img.height() as u32, raw) {
        Some(buffer) => buffer,
        None => return Err(BarcodeError::EncodeOrWriteFailed),
    };
    let mut out: Vec<u8> = Vec::new();
    match buffer.write_to(&mut std::io::Cursor::new(&mut out), image::ImageFormat::Png) {
        Ok(()) => Ok(out),
        Err(_) => Err(BarcodeError::EncodeOrWriteFailed),
    }
}

} // verus!

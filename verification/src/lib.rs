//! Turns a video into a "barcode" image: a fixed-width strip in which each
//! column holds the average color of one sampled frame, in timestamp order.
//!
//! The library holds the verified pipeline logic: planning the sampling
//! interval, reducing a decoded frame to its average color, sequencing the
//! per-frame colors, and assembling them into the output raster. Probing the
//! video, running the frame extractor and reading or writing files are left
//! to the surrounding program.

use vstd::prelude::*;

mod assembler;
mod codec;
mod color;
mod duration;
mod errors;
mod pipeline;
mod planner;
mod raster;
mod reducer;
mod sequencer;

pub use assembler::BarcodeAssembler;
pub use codec::{decode_frame, encode_png, png_bytes_of};
pub use color::Color;
pub use duration::parse_duration_seconds;
pub use errors::BarcodeError;
pub use pipeline::{Pipeline, Stage};
pub use planner::{plan_interval, SamplingInterval};
pub use raster::Raster;
pub use reducer::ColorReducer;
pub use sequencer::FrameSequencer;

verus! {

/// Width of the output barcode image, in columns (one column per sampled frame).
pub const BARCODE_WIDTH: usize = 1024;

/// Height of the output barcode image, in rows.
pub const BARCODE_HEIGHT: usize = 400;

/// Extra width units added to the target width before computing the sampling
/// interval, so the extractor over-produces frames and jitter cannot leave
/// the assembler short.
pub const SAMPLING_MARGIN: u64 = 10;

/// The two file paths the program works between: the video read and the
/// barcode image written.
#[derive(Debug)]
pub struct Config<'a> {
    input_video_path: &'a str,
    output_image_path: &'a str,
}

impl<'a> Config<'a> {
    /// The path of the video to read.
    pub closed spec fn spec_input_video_path(self) -> Seq<char> {
        self.input_video_path@
    }

    /// The path the barcode image is written to.
    pub closed spec fn spec_output_image_path(self) -> Seq<char> {
        self.output_image_path@
    }

    /// Reads the two positional arguments, video path then image path, from
    /// the argument list (whose first element names the program itself);
    /// fewer than two is a usage error.
    pub fn new(args: &'a [String]) -> (r: Result<Config<'a>, &'static str>)
        ensures
            r is Ok <==> args@.len() >= 3,
            (r matches Ok(c) ==> c.spec_input_video_path() == args@[1]@
                && c.spec_output_image_path() == args@[2]@),
            (r matches Err(e) ==> e@ == "Not enough arguments"@),
    {
        if args.len() < 3 {
            return Err("Not enough arguments");
        }
        Ok(Config { input_video_path: args[1].as_str(), output_image_path: args[2].as_str() })
    }

    /// The path of the video to read.
    pub fn input_video_path(&self) -> (r: &'a str)
        ensures
            r@ == self.spec_input_video_path(),
    {
        self.input_video_path
    }

    /// The path the barcode image is written to.
    pub fn output_image_path(&self) -> (r: &'a str)
        ensures
            r@ == self.spec_output_image_path(),
    {
        self.output_image_path
    }
}

} // verus!

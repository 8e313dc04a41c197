use vstd::prelude::*;

use crate::assembler::BarcodeAssembler;
use crate::codec::{encode_png, png_bytes_of};
use crate::color::Color;
use crate::errors::BarcodeError;
use crate::planner::{plan_interval, SamplingInterval};
use crate::raster::Raster;
use crate::reducer::reduced_color;
use crate::sequencer::FrameSequencer;

verus! {

/// The strictly linear stages of a run. Each is entered only by the
/// successful completion of the one before; a failure leaves the pipeline
/// where it stands.
#[derive(Clone, Copy, PartialEq, Eq, Structural, Debug)]
pub enum Stage {
    Initialized,
    DurationKnown,
    FramesExtracted,
    ColorsComputed,
    ImageSaved,
}

/// Sequences the pipeline: it owns no processing logic of its own, only
/// hands each stage's complete output to the next component and refuses any
/// step taken out of order. The side-effecting stages (probing, extracting,
/// writing) run outside; the pipeline records their completion.
pub struct Pipeline {
    stage: Stage,
}

impl Pipeline {
    /// The stage the pipeline currently stands in.
    pub closed spec fn spec_stage(self) -> Stage {
        self.stage
    }

    /// A fresh pipeline, before anything is known of the video.
    pub fn new() -> (p: Pipeline)
        ensures
            p.spec_stage() == Stage::Initialized,
    {
        Pipeline { stage: Stage::Initialized }
    }

    /// The stage the pipeline currently stands in.
    pub fn stage(&self) -> (r: Stage)
        ensures
            r == self.spec_stage(),
    {
        self.stage
    }

    /// Records the probed duration and plans the sampling interval from it:
    /// exactly `duration_seconds / (target_width + margin)` seconds. A zero
    /// duration is rejected and the pipeline does not advance.
    pub fn duration_known(
        &mut self,
        duration_seconds: u64,
        target_width: u64,
        margin: u64,
    ) -> (r: Result<SamplingInterval, BarcodeError>)
        requires
            old(self).spec_stage() == Stage::Initialized,
            target_width >= 1,
            target_width + margin <= u64::MAX,
        ensures
            r is Ok <==> duration_seconds > 0,
            (r matches Ok(iv) ==> final(self).spec_stage() == Stage::DurationKnown && iv.wf()
                && iv.seconds_num == duration_seconds && iv.seconds_den == target_width + margin),
            (r matches Err(e) ==> e == BarcodeError::ZeroOrInvalidDuration && *final(self) == *old(
                self,
            )),
    {
        match plan_interval(duration_seconds, target_width, margin) {
            Ok(iv) => {
                self.stage = Stage::DurationKnown;
                Ok(iv)
            },
            Err(e) => Err(e),
        }
    }

    /// Records that the extractor finished, having produced `frame_count`
    /// frames; an extractor that produced none failed, and the pipeline does
    /// not advance.
    pub fn frames_extracted(&mut self, frame_count: usize) -> (r: Result<(), BarcodeError>)
        requires
            old(self).spec_stage() == Stage::DurationKnown,
        ensures
            r is Ok <==> frame_count > 0,
            (r is Ok ==> final(self).spec_stage() == Stage::FramesExtracted),
            (r matches Err(e) ==> e == BarcodeError::ExtractionFailed && *final(self) == *old(
                self,
            )),
    {
        if frame_count == 0 {
            Err(BarcodeError::ExtractionFailed)
        } else {
            self.stage = Stage::FramesExtracted;
            Ok(())
        }
    }

    /// Reduces the extracted frames, in their temporal order, to the ordered
    /// color sequence: the `i`-th color is the reduced color of the `i`-th
    /// frame. A frame with zero pixels fails the whole step and the pipeline
    /// does not advance.
    pub fn colors_computed(&mut self, frames: &Vec<Raster>) -> (r: Result<Vec<Color>, BarcodeError>)
        requires
            old(self).spec_stage() == Stage::FramesExtracted,
            forall|i: int| 0 <= i < frames@.len() ==> frames@[i].wf(),
        ensures
            r is Ok <==> (forall|i: int|
                0 <= i < frames@.len() ==> frames@[i].spec_pixel_count() > 0),
            (r matches Ok(colors) ==> final(self).spec_stage() == Stage::ColorsComputed
                && colors@.len() == frames@.len() && (forall|i: int|
                0 <= i < frames@.len() ==> colors@[i] == reduced_color(frames@[i]))),
            (r matches Err(e) ==> e == BarcodeError::EmptyImage && *final(self) == *old(self)),
    {
        match FrameSequencer::sequence(frames) {
            Ok(colors) => {
                self.stage = Stage::ColorsComputed;
                Ok(colors)
            },
            Err(e) => Err(e),
        }
    }

    /// Assembles the computed colors into the `width` by `height` barcode
    /// image, one color per column.
    pub fn assemble_barcode(&self, colors: &Vec<Color>, width: usize, height: usize) -> (r: Result<
        Raster,
        BarcodeError,
    >)
        requires
            self.spec_stage() == Stage::ColorsComputed,
            width >= 1,
            height >= 1,
            width * height <= usize::MAX,
        ensures
            r is Ok <==> colors@.len() >= width,
            (r matches Ok(img) ==> img.wf() && img.spec_width() == width && img.spec_height()
                == height && (forall|c: int, row: int|
                0 <= c < width && 0 <= row < height ==> img.spec_pixel_at(c, row) == colors@[c])),
            (r matches Err(e) ==> e == (BarcodeError::InsufficientFrames {
                produced: colors@.len() as usize,
                required: width,
            })),
    {
        BarcodeAssembler::assemble(colors, width, height)
    }

    /// Encodes the assembled barcode image as PNG bytes, ready to be written
    /// to the output path. Every image with positive dimensions encodes; the
    /// bytes are exactly its PNG encoding.
    pub fn encode_barcode(&self, img: &Raster) -> (r: Result<Vec<u8>, BarcodeError>)
        requires
            self.spec_stage() == Stage::ColorsComputed,
            img.wf(),
            img.spec_width() <= u32::MAX,
            img.spec_height() <= u32::MAX,
        ensures
            r is Ok <==> img.spec_width() >= 1 && img.spec_height() >= 1,
            (r matches Ok(b) ==> b@ == png_bytes_of(
                img.spec_width(),
                img.spec_height(),
                img.spec_pixels(),
            )),
            (r matches Err(e) ==> e == BarcodeError::EncodeOrWriteFailed),
    {
        encode_png(img)
    }

    /// Records that the encoded image reached the output file, completing
    /// the run.
    pub fn image_saved(&mut self)
        requires
            old(self).spec_stage() == Stage::ColorsComputed,
        ensures
            final(self).spec_stage() == Stage::ImageSaved,
    {
        self.stage = Stage::ImageSaved;
    }
}

} // verus!

use vstd::prelude::*;

verus! {

/// Everything that can go wrong between probing the video and writing the
/// barcode image. Every stage failure carries exactly one of these variants;
/// the pipeline stops at the first one.
#[derive(Clone, Copy, PartialEq, Eq, Structural, Debug)]
pub enum BarcodeError {
    /// The duration probe failed or returned output that is not a
    /// non-negative decimal number of seconds.
    DurationUnavailable,
    /// The probed duration is zero, so no sampling interval exists.
    ZeroOrInvalidDuration,
    /// The frame extractor failed or produced no frames.
    ExtractionFailed,
    /// A frame decoded to a grid with zero pixels.
    EmptyImage,
    /// A frame file could not be decoded.
    DecodeFailed,
    /// Fewer colors were produced than the output image has columns.
    InsufficientFrames { produced: usize, required: usize },
    /// The barcode image could not be encoded or written out.
    EncodeOrWriteFailed,
}

impl BarcodeError {
    /// The fixed description of each variant, as a sequence of characters.
    pub closed spec fn spec_message(self) -> Seq<char> {
        match self {
            BarcodeError::DurationUnavailable => "could not determine the video duration"@,
            BarcodeError::ZeroOrInvalidDuration => "video duration is zero or invalid"@,
            BarcodeError::ExtractionFailed => "frame extraction failed or produced no frames"@,
            BarcodeError::EmptyImage => "a frame decoded to an image with zero pixels"@,
            BarcodeError::DecodeFailed => "a frame file could not be decoded"@,
            BarcodeError::InsufficientFrames { .. } => "fewer frames than the output width"@,
            BarcodeError::EncodeOrWriteFailed => "the barcode image could not be encoded or written"@,
        }
    }

    /// A short human-readable description of the error.
    pub fn message(&self) -> (r: &'static str)
        ensures
            r@ == self.spec_message(),
    {
        match self {
            BarcodeError::DurationUnavailable => "could not determine the video duration",
            BarcodeError::ZeroOrInvalidDuration => "video duration is zero or invalid",
            BarcodeError::ExtractionFailed => "frame extraction failed or produced no frames",
            BarcodeError::EmptyImage => "a frame decoded to an image with zero pixels",
            BarcodeError::DecodeFailed => "a frame file could not be decoded",
            BarcodeError::InsufficientFrames { .. } => "fewer frames than the output width",
            BarcodeError::EncodeOrWriteFailed => "the barcode image could not be encoded or written",
        }
    }
}

} // verus!

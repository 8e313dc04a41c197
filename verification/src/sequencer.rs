use vstd::prelude::*;

use crate::color::Color;
use crate::errors::BarcodeError;
use crate::raster::Raster;
use crate::reducer::{reduced_color, ColorReducer};

verus! {

/// Turns the ordered frames into the ordered color sequence, one color per
/// frame.
pub struct FrameSequencer;

impl FrameSequencer {
    /// Reduces every frame to its representative color, in the order given:
    /// the `i`-th output color is exactly the reduced color of the `i`-th
    /// frame, so temporal order is kept and no frame is skipped or
    /// reordered. If any frame has zero pixels the whole operation fails and
    /// no partial sequence is returned.
    pub fn sequence(frames: &Vec<Raster>) -> (r: Result<Vec<Color>, BarcodeError>)
        requires
            forall|i: int| 0 <= i < frames@.len() ==> frames@[i].wf(),
        ensures
            r is Ok <==> (forall|i: int|
                0 <= i < frames@.len() ==> frames@[i].spec_pixel_count() > 0),
            (r matches Ok(colors) ==> colors@.len() == frames@.len() && (forall|i: int|
                0 <= i < frames@.len() ==> colors@[i] == reduced_color(frames@[i]))),
            (r matches Err(e) ==> e == BarcodeError::EmptyImage),
    {
        let mut colors: Vec<Color> = Vec::new();
        let n = frames.len();
        let mut i: usize = 0;
        while i < n
            invariant
                n == frames@.len(),
                forall|j: int| 0 <= j < n ==> frames@[j].wf(),
                i <= n,
                colors@.len() == i,
                forall|j: int| 0 <= j < i ==> frames@[j].spec_pixel_count() > 0,
                forall|j: int| 0 <= j < i ==> colors@[j] == reduced_color(frames@[j]),
            decreases n - i,
        {
            match ColorReducer::reduce(&frames[i]) {
                Ok(c) => {
                    colors.push(c);
                },
                Err(e) => {
                    return Err(e);
                },
            }
            i = i + 1;
        }
        Ok(colors)
    }
}

} // verus!

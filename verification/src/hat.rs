use vstd::prelude::*;

use crate::detectors::naive_detector::MAX_EXPECTED_AREA;
use crate::lab_color::LabColor;

verus! {

/// The static description of the marker being tracked: a color range in
/// the Lab color space for segmentation, and the projected area the marker
/// is expected to cover, in fixed-point square pixels.  Immutable after
/// construction.
#[derive(Clone, Copy, Debug, PartialEq, Eq, Structural)]
pub struct Hat {
    pub color_low: LabColor,
    pub color_high: LabColor,
    pub size_avg: i64,
}

impl Hat {
    /// The expected area is positive and small enough for every area
    /// comparison to stay far from the integer limits.
    pub open spec fn wf(&self) -> bool {
        0 < self.size_avg <= MAX_EXPECTED_AREA
    }

    /// A marker description from its color range and expected projected
    /// area in fixed-point square pixels.
    pub fn new(color_low: LabColor, color_high: LabColor, size_avg: i64) -> (r: Hat)
        requires
            0 < size_avg <= MAX_EXPECTED_AREA,
        ensures
            r.color_low == color_low,
            r.color_high == color_high,
            r.size_avg == size_avg,
            r.wf(),
    {
        Hat { color_low, color_high, size_avg }
    }
}

} // verus!

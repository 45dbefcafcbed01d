use vstd::prelude::*;

use crate::angle::HALF_PI;
use crate::detectors::naive_detector::contours_in_frame_spec;
use crate::fixed::SCALE;
use crate::geometric_point::GeometricPoint;
use crate::geometric_point::coord_within;
use crate::point_converter::PointConverter;
use crate::point_converter::RasterPoint;

verus! {

/// The largest velocity estimate a filter may report, in fixed-point
/// pixels per frame: the width of the Cartesian coordinate range.
pub const MAX_VELOCITY: i64 = 16_000 * SCALE;

/// A detection strategy.  Whatever the algorithm, a conforming detector
/// reports a position inside the frame's Cartesian bounds, an orientation
/// between minus half pi exclusive and half pi inclusive, and a certainty
/// in `[0.0, 1.0]`.
pub trait Detector: Sized {
    /// The detector's state is within the ranges its getters promise.
    spec fn inv(&self) -> bool;

    /// The position the latest detection produced, if any.
    spec fn detected_position_spec(&self) -> Option<GeometricPoint>;

    /// The orientation the latest detection produced, if any.
    spec fn detected_angle_spec(&self) -> Option<i64>;

    /// The certainty of the latest detection.
    spec fn detection_certainty_spec(&self) -> i64;

    /// Returns the position of the detected object in the centered
    /// Cartesian system, or nothing when the last frame gave no detection.
    fn get_detected_position(&self) -> (r: Option<GeometricPoint>)
        requires
            self.inv(),
        ensures
            r == self.detected_position_spec(),
            r matches Option::Some(p) ==> coord_within(p, 8_000),
    ;

    /// Returns the angle the object is turned toward, in fixed-point
    /// radians within the half-open orientation range.
    fn get_detected_angle(&self) -> (r: Option<i64>)
        requires
            self.inv(),
        ensures
            r == self.detected_angle_spec(),
            r matches Option::Some(a) ==> -HALF_PI < a <= HALF_PI,
    ;

    /// Returns the certainty of the detection, in `[0.0, 1.0]`.
    fn get_detection_certainty(&self) -> (r: i64)
        requires
            self.inv(),
        ensures
            r == self.detection_certainty_spec(),
            0 <= r <= SCALE,
    ;

    /// Recalculates position, orientation and certainty from one frame's
    /// contours, with the filter's previous estimate as an optional hint.
    fn detect_new_position(
        &mut self,
        contours: &Vec<Vec<RasterPoint>>,
        old_pos: Option<RasterPoint>,
        p_c: &PointConverter,
    )
        requires
            old(self).inv(),
            p_c.wf(),
            contours_in_frame_spec(contours@, p_c.width as int, p_c.height as int),
        ensures
            final(self).inv(),
    ;
}

/// A temporal filtering strategy over per-frame detections.  Whatever the
/// smoothing, a conforming filter overwrites its certainty with every
/// update, keeps an orientation within the half-open orientation range,
/// retains its angle when an update carries none, and reports a freshly
/// delivered position unchanged.
pub trait Filter: Sized {
    /// The filter's state is within the ranges its getters promise.
    spec fn inv(&self) -> bool;

    /// The current position estimate, if any.
    spec fn est_position_spec(&self) -> Option<GeometricPoint>;

    /// The current orientation estimate.
    spec fn est_angle_spec(&self) -> i64;

    /// The current horizontal velocity estimate.
    spec fn est_vx_spec(&self) -> i64;

    /// The current vertical velocity estimate.
    spec fn est_vy_spec(&self) -> i64;

    /// The certainty of the current estimate.
    spec fn est_certainty_spec(&self) -> i64;

    /// Folds one frame's detection into the estimate.  A delivered
    /// position replaces the stored one; an absent position leaves the
    /// stored position in place or clears it, never invents one; an
    /// absent angle keeps the previous angle; the certainty is always
    /// overwritten, because it reflects the freshness of the evidence.
    fn update_estimation(&mut self, point: Option<GeometricPoint>, angle: Option<i64>, cert: i64)
        requires
            old(self).inv(),
            point matches Option::Some(p) ==> coord_within(p, 8_000),
            angle matches Option::Some(a) ==> -HALF_PI < a <= HALF_PI,
            0 <= cert <= SCALE,
        ensures
            final(self).inv(),
            final(self).est_certainty_spec() == cert,
            point matches Option::Some(p) ==> final(self).est_position_spec()
                == Option::Some(p),
            point is None ==> final(self).est_position_spec() == old(self).est_position_spec()
                || final(self).est_position_spec() is None,
            angle matches Option::Some(a) ==> final(self).est_angle_spec() == a,
            angle is None ==> final(self).est_angle_spec() == old(self).est_angle_spec(),
    ;

    /// Returns the estimated position of the marker, if one is held.
    fn get_estimated_position(&self) -> (r: Option<GeometricPoint>)
        requires
            self.inv(),
        ensures
            r == self.est_position_spec(),
            r matches Option::Some(p) ==> coord_within(p, 8_000),
    ;

    /// Returns the estimated angle of the marker, in fixed-point radians
    /// within the half-open orientation range.
    fn get_estimated_angle(&self) -> (r: i64)
        requires
            self.inv(),
        ensures
            r == self.est_angle_spec(),
            -HALF_PI < r <= HALF_PI,
    ;

    /// Returns the estimated horizontal speed of the marker, in
    /// fixed-point pixels per frame.
    fn get_estimated_vx(&self) -> (r: i64)
        requires
            self.inv(),
        ensures
            r == self.est_vx_spec(),
            -MAX_VELOCITY <= r <= MAX_VELOCITY,
    ;

    /// Returns the estimated vertical speed of the marker, in fixed-point
    /// pixels per frame.
    fn get_estimated_vy(&self) -> (r: i64)
        requires
            self.inv(),
        ensures
            r == self.est_vy_spec(),
            -MAX_VELOCITY <= r <= MAX_VELOCITY,
    ;

    /// Returns the certainty of the estimation, in `[0.0, 1.0]`.
    fn get_estimation_certainty(&self) -> (r: i64)
        requires
            self.inv(),
        ensures
            r == self.est_certainty_spec(),
            0 <= r <= SCALE,
    ;
}

} // verus!

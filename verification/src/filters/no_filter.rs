use vstd::prelude::*;

use crate::angle::HALF_PI;
use crate::fixed::SCALE;
use crate::geometric_point::GeometricPoint;
use crate::geometric_point::coord_within;
use crate::traits::Filter;
use crate::traits::MAX_VELOCITY;

verus! {

/// A filler filter: it passes the detector's data straight through,
/// computing nothing new beyond the first-difference velocity estimate.
pub struct NoFilter {
    pub point: Option<GeometricPoint>,
    pub angle: i64,
    pub vx: i64,
    pub vy: i64,
    pub cert: i64,
}

/// The filter state after folding in one frame's detection: velocity
/// becomes the per-frame displacement whenever an old and a new position
/// both exist; the position is simply overwritten, the angle only when one
/// is delivered, and the certainty always.
pub open spec fn no_filter_update_spec(
    pre: NoFilter,
    point: Option<GeometricPoint>,
    angle: Option<i64>,
    cert: i64,
) -> NoFilter {
    let (vx, vy) = if pre.point is Some && point is Some {
        (
            ((point->Some_0.x - pre.point->Some_0.x) * SCALE) as i64,
            ((point->Some_0.y - pre.point->Some_0.y) * SCALE) as i64,
        )
    } else {
        (pre.vx, pre.vy)
    };
    NoFilter {
        point,
        angle: match angle {
            Option::Some(a) => a,
            Option::None => pre.angle,
        },
        vx,
        vy,
        cert,
    }
}

impl NoFilter {
    /// The filter's state stays within the ranges its contracts promise.
    pub open spec fn wf(&self) -> bool {
        &&& self.point matches Option::Some(p) ==> coord_within(p, 8_000)
        &&& -HALF_PI < self.angle <= HALF_PI
        &&& -MAX_VELOCITY <= self.vx <= MAX_VELOCITY
        &&& -MAX_VELOCITY <= self.vy <= MAX_VELOCITY
        &&& 0 <= self.cert <= SCALE
    }

    /// A pass-through filter; it needs no parameters because it performs
    /// no calculations of its own.
    pub fn new() -> (r: NoFilter)
        ensures
            r.point is None,
            r.angle == 0,
            r.vx == 0,
            r.vy == 0,
            r.cert == 0,
            r.wf(),
    {
        NoFilter { point: Option::None, angle: 0, cert: 0, vx: 0, vy: 0 }
    }
}

impl Filter for NoFilter {
    /// The filter's state stays within the ranges the trait promises.
    open spec fn inv(&self) -> bool {
        self.wf()
    }

    /// The stored position estimate.
    open spec fn est_position_spec(&self) -> Option<GeometricPoint> {
        self.point
    }

    /// The stored orientation estimate.
    open spec fn est_angle_spec(&self) -> i64 {
        self.angle
    }

    /// The stored horizontal velocity estimate.
    open spec fn est_vx_spec(&self) -> i64 {
        self.vx
    }

    /// The stored vertical velocity estimate.
    open spec fn est_vy_spec(&self) -> i64 {
        self.vy
    }

    /// The stored certainty.
    open spec fn est_certainty_spec(&self) -> i64 {
        self.cert
    }

    /// Copies one frame's detection into the estimate, exactly as
    /// `no_filter_update_spec` describes.
    fn update_estimation(&mut self, point: Option<GeometricPoint>, angle: Option<i64>, cert: i64)
        ensures
            *final(self) == no_filter_update_spec(*old(self), point, angle, cert),
    {
        match (&self.point, &point) {
            (Option::Some(p), Option::Some(new_p)) => {
                self.vx = ((new_p.x - p.x) as i64) * SCALE;
                self.vy = ((new_p.y - p.y) as i64) * SCALE;
            },
            _ => {},
        }
        self.point = point;
        if let Option::Some(a) = angle {
            self.angle = a;
        }
        self.cert = cert;
    }

    /// The stored position estimate, if one is held.
    fn get_estimated_position(&self) -> (r: Option<GeometricPoint>) {
        self.point
    }

    /// The stored orientation estimate.
    fn get_estimated_angle(&self) -> (r: i64) {
        self.angle
    }

    /// The stored horizontal velocity estimate.
    fn get_estimated_vx(&self) -> (r: i64) {
        self.vx
    }

    /// The stored vertical velocity estimate.
    fn get_estimated_vy(&self) -> (r: i64) {
        self.vy
    }

    /// The stored certainty.
    fn get_estimation_certainty(&self) -> (r: i64) {
        self.cert
    }
}

} // verus!

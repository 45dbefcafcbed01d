use vstd::prelude::*;

use crate::angle::HALF_PI;
use crate::fixed::SCALE;
use crate::geometric_point::GeometricPoint;
use crate::geometric_point::coord_within;
use crate::traits::Filter;
use crate::traits::MAX_VELOCITY;

verus! {

/// A bounded-memory last-value-hold filter: it passes detections through
/// like `NoFilter`, but when a frame brings no detection it retains the
/// last known position for a configured number of frames before clearing
/// it.  Velocity is estimated as the first difference of consecutive
/// positions, in pixels per frame.
pub struct MemoryFilter {
    pub frames_unknown: usize,
    pub max_frames_unknown: usize,
    pub point: Option<GeometricPoint>,
    pub angle: i64,
    pub vx: i64,
    pub vy: i64,
    pub cert: i64,
}

/// The filter state after folding in one frame's detection:
/// - velocity becomes the per-frame displacement whenever an old and a new
///   position both exist, and is otherwise left alone;
/// - a delivered position replaces the stored one and resets the miss
///   counter; on a miss the position is retained until the counter reaches
///   the configured maximum, at which point it is cleared and the counter
///   starts over;
/// - a delivered angle replaces the stored one, a missing angle leaves it;
/// - the certainty is always overwritten, since it reflects the freshness
///   of the evidence rather than confidence in the retained state.
pub open spec fn memory_update_spec(
    pre: MemoryFilter,
    point: Option<GeometricPoint>,
    angle: Option<i64>,
    cert: i64,
) -> MemoryFilter {
    let (vx, vy) = if pre.point is Some && point is Some {
        (
            ((point->Some_0.x - pre.point->Some_0.x) * SCALE) as i64,
            ((point->Some_0.y - pre.point->Some_0.y) * SCALE) as i64,
        )
    } else {
        (pre.vx, pre.vy)
    };
    let (new_point, frames) = match point {
        Option::Some(p) => (Option::Some(p), 0usize),
        Option::None => {
            if pre.frames_unknown == pre.max_frames_unknown {
                (Option::None, 0usize)
            } else {
                (pre.point, (pre.frames_unknown + 1) as usize)
            }
        },
    };
    MemoryFilter {
        frames_unknown: frames,
        max_frames_unknown: pre.max_frames_unknown,
        point: new_point,
        angle: match angle {
            Option::Some(a) => a,
            Option::None => pre.angle,
        },
        vx,
        vy,
        cert,
    }
}

impl MemoryFilter {
    /// The filter's state stays within the ranges its contracts promise,
    /// and the miss counter never passes its configured maximum.
    pub open spec fn wf(&self) -> bool {
        &&& self.frames_unknown <= self.max_frames_unknown
        &&& self.point matches Option::Some(p) ==> coord_within(p, 8_000)
        &&& -HALF_PI < self.angle <= HALF_PI
        &&& -MAX_VELOCITY <= self.vx <= MAX_VELOCITY
        &&& -MAX_VELOCITY <= self.vy <= MAX_VELOCITY
        &&& 0 <= self.cert <= SCALE
    }

    /// A filter that forgets the last known position after
    /// `max_frames_unknown` consecutive frames without a detection.
    pub fn new(max_frames_unknown: usize) -> (r: MemoryFilter)
        ensures
            r.frames_unknown == 0,
            r.max_frames_unknown == max_frames_unknown,
            r.point is None,
            r.angle == 0,
            r.vx == 0,
            r.vy == 0,
            r.cert == 0,
            r.wf(),
    {
        MemoryFilter {
            frames_unknown: 0,
            max_frames_unknown,
            point: Option::None,
            angle: 0,
            cert: 0,
            vx: 0,
            vy: 0,
        }
    }
}

impl Filter for MemoryFilter {
    /// The filter's state stays within the ranges the trait promises.
    open spec fn inv(&self) -> bool {
        self.wf()
    }

    /// The stored position estimate.
    open spec fn est_position_spec(&self) -> Option<GeometricPoint> {
        self.point
    }

    /// The stored orientation estimate.
    open spec fn est_angle_spec(&self) -> i64 {
        self.angle
    }

    /// The stored horizontal velocity estimate.
    open spec fn est_vx_spec(&self) -> i64 {
        self.vx
    }

    /// The stored vertical velocity estimate.
    open spec fn est_vy_spec(&self) -> i64 {
        self.vy
    }

    /// The stored certainty.
    open spec fn est_certainty_spec(&self) -> i64 {
        self.cert
    }

    /// Folds one frame's detection into the estimate, exactly as
    /// `memory_update_spec` describes.
    fn update_estimation(&mut self, point: Option<GeometricPoint>, angle: Option<i64>, cert: i64)
        ensures
            *final(self) == memory_update_spec(*old(self), point, angle, cert),
    {
        match (&self.point, &point) {
            (Option::Some(p), Option::Some(new_p)) => {
                self.vx = ((new_p.x - p.x) as i64) * SCALE;
                self.vy = ((new_p.y - p.y) as i64) * SCALE;
            },
            _ => {},
        }
        match point {
            Option::Some(p) => {
                self.frames_unknown = 0;
                self.point = Option::Some(p);
            },
            Option::None => {
                if self.frames_unknown == self.max_frames_unknown {
                    self.point = Option::None;
                    self.frames_unknown = 0;
                } else {
                    self.frames_unknown = self.frames_unknown + 1;
                }
            },
        }
        if let Option::Some(a) = angle {
            self.angle = a;
        }
        self.cert = cert;
    }

    /// The stored position estimate, if one is held.
    fn get_estimated_position(&self) -> (r: Option<GeometricPoint>) {
        self.point
    }

    /// The stored orientation estimate.
    fn get_estimated_angle(&self) -> (r: i64) {
        self.angle
    }

    /// The stored horizontal velocity estimate.
    fn get_estimated_vx(&self) -> (r: i64) {
        self.vx
    }

    /// The stored vertical velocity estimate.
    fn get_estimated_vy(&self) -> (r: i64) {
        self.vy
    }

    /// The stored certainty.
    fn get_estimation_certainty(&self) -> (r: i64) {
        self.cert
    }
}

/// The bounded-memory law: with a three-frame memory, a filter that holds
/// a position and then sees three consecutive frames without a detection
/// retains the position through all three of them, and the fourth
/// consecutive miss clears it, whatever angles and certainties those
/// frames carry.
pub proof fn lemma_memory_retention_window(
    m0: MemoryFilter,
    a1: Option<i64>,
    c1: i64,
    a2: Option<i64>,
    c2: i64,
    a3: Option<i64>,
    c3: i64,
    a4: Option<i64>,
    c4: i64,
)
    requires
        m0.point is Some,
        m0.frames_unknown == 0,
        m0.max_frames_unknown == 3,
    ensures
        ({
            let m1 = memory_update_spec(m0, Option::None, a1, c1);
            let m2 = memory_update_spec(m1, Option::None, a2, c2);
            let m3 = memory_update_spec(m2, Option::None, a3, c3);
            let m4 = memory_update_spec(m3, Option::None, a4, c4);
            &&& m1.point == m0.point
            &&& m2.point == m0.point
            &&& m3.point == m0.point
            &&& m4.point is None
        }),
{
}

} // verus!

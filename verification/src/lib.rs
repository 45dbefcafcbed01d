//! Tracks a single colored marker across video frames and turns the
//! estimated marker state into bounded, debounced velocity commands that
//! keep the marker centered in frame.
//!
//! The crate is the computational core of a perception-to-actuation
//! pipeline: contour extraction, video decoding, rendering and actuator
//! transport live outside it, behind the `Detector`, `Filter` and frame
//! boundaries.  Everything here works on plain integers; fractional
//! quantities are fixed-point values scaled by `fixed::SCALE`.

pub mod angle;
pub mod detectors;
pub mod filters;
pub mod fixed;
pub mod geometric_point;
pub mod hat;
pub mod hat_follower_settings;
pub mod lab_color;
pub mod point_converter;
pub mod point_systems;
pub mod traits;

use vstd::prelude::*;

use crate::angle::HALF_PI;
use crate::detectors::naive_detector::contours_in_frame_spec;
use crate::fixed::SCALE;
use crate::fixed::abs_spec;
use crate::fixed::abs_i64;
use crate::fixed::div_trunc_spec;
use crate::fixed::div_trunc;
use crate::fixed::mul_scale_clamp_spec;
use crate::fixed::mul_scale_clamp;
use crate::hat_follower_settings::HatFollowerSettings;
use crate::point_converter::PointConverter;
use crate::point_converter::RasterPoint;
use crate::traits::Detector;
use crate::traits::Filter;

verus! {

/// The desired speed along one axis, in fixed-point normalized units
/// before calibration: zero inside the dead zone around the center,
/// otherwise the offset divided by the configured settle time.
pub open spec fn speed_to_center_spec(ct: int, ftc: int, dist: int) -> int {
    if abs_spec(dist) * SCALE > ct {
        div_trunc_spec(dist * SCALE * (SCALE as int), ftc)
    } else {
        0
    }
}

/// The two desired axis speeds a filter state yields: zero when the marker
/// is lost, otherwise the proportional speeds toward the center, less the
/// marker's own estimated velocity when counteracting is enabled, scaled
/// by the calibration constant and clamped into `[-1.0, 1.0]`.
pub open spec fn desired_vs_spec<F: Filter>(f: F, s: HatFollowerSettings, kv: i64) -> (i64, i64) {
    match f.est_position_spec() {
        Option::None => (0i64, 0i64),
        Option::Some(p) => {
            let vx0 = speed_to_center_spec(
                s.center_threshold as int,
                s.frames_to_be_centered as int,
                p.x as int,
            );
            let vy0 = speed_to_center_spec(
                s.center_threshold as int,
                s.frames_to_be_centered as int,
                p.y as int,
            );
            let vx1 = if s.counteract_velocity {
                vx0 - f.est_vx_spec()
            } else {
                vx0
            };
            let vy1 = if s.counteract_velocity {
                vy0 - f.est_vy_spec()
            } else {
                vy0
            };
            (
                mul_scale_clamp_spec(vx1, kv as int) as i64,
                mul_scale_clamp_spec(vy1, kv as int) as i64,
            )
        },
    }
}

/// The full four-component command a filter state yields: the two axis
/// speeds, the vertical speed carried over unchanged from the last issued
/// command, and the turn rate derived from the angle change, scaled and
/// clamped.
pub open spec fn command_spec<F: Filter>(
    f: F,
    s: HatFollowerSettings,
    prev_angle: i64,
    last: (i64, i64, i64, i64),
    kv: i64,
    ka: i64,
) -> (i64, i64, i64, i64) {
    let vs = desired_vs_spec(f, s, kv);
    let turn = mul_scale_clamp_spec(f.est_angle_spec() - prev_angle, ka as int) as i64;
    (vs.0, vs.1, last.2, turn)
}

/// The L1 distance between two commands over the components a new command
/// can change: the two axis speeds and the turn rate.  The vertical speed
/// is carried over unchanged, so its term would always be zero.
pub open spec fn l1_distance_spec(a: (i64, i64, i64, i64), b: (i64, i64, i64, i64)) -> int {
    abs_spec(a.0 - b.0) + abs_spec(a.1 - b.1) + abs_spec(a.3 - b.3)
}

/// The heart of the following mechanism: for each frame it runs the
/// detector on the frame's contours, folds the detection into the filter,
/// computes a proportional, clamped velocity command from the estimate,
/// and debounces it against the last issued command.  The caller performs
/// the actuation and the frame I/O around it.
pub struct HatFollower<D: Detector, F: Filter> {
    pub detector: D,
    pub filter: F,
    pub p_c: PointConverter,
    pub prev_angle: i64,
    pub last_params: (i64, i64, i64, i64),
    pub settings: HatFollowerSettings,
}

impl<D: Detector, F: Filter> HatFollower<D, F> {
    /// The follower's state stays within the ranges its contracts
    /// promise: well-formed components, every command component within the
    /// normalized range, and a reference angle within the orientation
    /// range.
    pub open spec fn wf(&self) -> bool {
        &&& self.detector.inv()
        &&& self.filter.inv()
        &&& self.p_c.wf()
        &&& self.settings.wf()
        &&& -SCALE <= self.last_params.0 <= SCALE
        &&& -SCALE <= self.last_params.1 <= SCALE
        &&& -SCALE <= self.last_params.2 <= SCALE
        &&& -SCALE <= self.last_params.3 <= SCALE
        &&& -HALF_PI < self.prev_angle <= HALF_PI
    }

    /// Whether the command computed from the current state differs from
    /// the last issued one by more than the debounce threshold, so that it
    /// would actually be issued.
    pub open spec fn issues_spec(&self, kv: i64, ka: i64) -> bool {
        l1_distance_spec(
            command_spec(self.filter, self.settings, self.prev_angle, self.last_params, kv, ka),
            self.last_params,
        ) > self.settings.min_change
    }

    /// A follower over the given detection and filtering strategies, for
    /// frames of the given size.
    pub fn new(
        detector: D,
        filter: F,
        settings: HatFollowerSettings,
        width: usize,
        height: usize,
    ) -> (r: HatFollower<D, F>)
        requires
            detector.inv(),
            filter.inv(),
            settings.wf(),
            1 <= width <= 16_000,
            1 <= height <= 16_000,
        ensures
            r.detector == detector,
            r.filter == filter,
            r.settings == settings,
            r.p_c.width == width,
            r.p_c.height == height,
            r.prev_angle == 0,
            r.last_params == (0i64, 0i64, 0i64, 0i64),
            r.wf(),
    {
        HatFollower {
            p_c: PointConverter::new(width, height),
            detector,
            filter,
            prev_angle: 0,
            last_params: (0, 0, 0, 0),
            settings,
        }
    }

    /// The speed needed along one axis for the marker to reach the frame
    /// center: the offset divided by the configured settle time, or zero
    /// inside the dead zone, in fixed-point pixels per frame.
    fn calculate_speed_to_center(&self, dist: i32) -> (r: i64)
        requires
            self.settings.wf(),
            -16_000 <= dist <= 16_000,
        ensures
            r == speed_to_center_spec(
                self.settings.center_threshold as int,
                self.settings.frames_to_be_centered as int,
                dist as int,
            ),
            -16_000 * SCALE * SCALE <= r <= 16_000 * SCALE * SCALE,
    {
        let scaled: i64 = (dist as i64) * SCALE;
        if abs_i64(scaled) > self.settings.center_threshold {
            return div_trunc((dist as i64) * SCALE * SCALE, self.settings.frames_to_be_centered);
        }
        0
    }

    /// The two clamped axis speeds for the current estimate: zero when the
    /// marker is lost, so the platform stops drifting.
    fn calculate_new_vs(&self, kv: i64) -> (r: (i64, i64))
        requires
            self.settings.wf(),
            self.filter.inv(),
        ensures
            r == desired_vs_spec(self.filter, self.settings, kv),
            -SCALE <= r.0 <= SCALE,
            -SCALE <= r.1 <= SCALE,
    {
        let est = self.filter.get_estimated_position();
        match est {
            Option::None => (0, 0),
            Option::Some(est_position) => {
                let mut vx_to_center = self.calculate_speed_to_center(est_position.x);
                let mut vy_to_center = self.calculate_speed_to_center(est_position.y);
                if self.settings.counteract_velocity {
                    vx_to_center = vx_to_center - self.filter.get_estimated_vx();
                    vy_to_center = vy_to_center - self.filter.get_estimated_vy();
                }
                (mul_scale_clamp(vx_to_center, kv), mul_scale_clamp(vy_to_center, kv))
            },
        }
    }

    /// Computes the new command and debounces it: the command is returned
    /// for actuation, and remembered, exactly when its L1 distance from
    /// the last issued command exceeds the configured minimum change;
    /// otherwise nothing is issued and the state is unchanged.
    pub fn control_the_drone(&mut self, kv: i64, ka: i64) -> (r: Option<(i64, i64, i64, i64)>)
        requires
            old(self).wf(),
        ensures
            final(self).wf(),
            final(self).detector == old(self).detector,
            final(self).filter == old(self).filter,
            final(self).p_c == old(self).p_c,
            final(self).settings == old(self).settings,
            final(self).prev_angle == old(self).prev_angle,
            ({
                let c = command_spec(
                    old(self).filter,
                    old(self).settings,
                    old(self).prev_angle,
                    old(self).last_params,
                    kv,
                    ka,
                );
                if old(self).issues_spec(kv, ka) {
                    r == Option::Some(c) && final(self).last_params == c
                } else {
                    r is None && final(self).last_params == old(self).last_params
                }
            }),
    {
        let min_change = self.settings.min_change;
        let (new_vx, new_vy) = self.calculate_new_vs(kv);
        let estimated_angle = self.filter.get_estimated_angle();
        let new_turn = mul_scale_clamp(estimated_angle - self.prev_angle, ka);
        let (old_vx, old_vy, old_vz, old_turn) = self.last_params;
        let change = abs_i64(new_vx - old_vx) + abs_i64(new_vy - old_vy) + abs_i64(
            new_turn - old_turn,
        );
        if change > min_change {
            self.last_params = (new_vx, new_vy, old_vz, new_turn);
            Option::Some((new_vx, new_vy, old_vz, new_turn))
        } else {
            Option::None
        }
    }

    /// One full control iteration for one frame: detect on the frame's
    /// contours (with the filter's previous estimate as a hint), fold the
    /// detection into the filter, and compute and debounce the command.
    /// The returned command, when there is one, is what the caller sends
    /// to the actuator.
    pub fn process_frame(&mut self, contours: &Vec<Vec<RasterPoint>>, kv: i64, ka: i64) -> (r:
        Option<(i64, i64, i64, i64)>)
        requires
            old(self).wf(),
            contours_in_frame_spec(
                contours@,
                old(self).p_c.width as int,
                old(self).p_c.height as int,
            ),
        ensures
            final(self).wf(),
            final(self).p_c == old(self).p_c,
            final(self).settings == old(self).settings,
            final(self).prev_angle == old(self).prev_angle,
            final(self).filter.est_certainty_spec()
                == final(self).detector.detection_certainty_spec(),
            final(self).detector.detected_position_spec() matches Option::Some(p)
                ==> final(self).filter.est_position_spec() == Option::Some(p),
            final(self).detector.detected_position_spec() is None
                ==> final(self).filter.est_position_spec()
                == old(self).filter.est_position_spec()
                || final(self).filter.est_position_spec() is None,
            final(self).detector.detected_angle_spec() matches Option::Some(a)
                ==> final(self).filter.est_angle_spec() == a,
            final(self).detector.detected_angle_spec() is None
                ==> final(self).filter.est_angle_spec() == old(self).filter.est_angle_spec(),
            ({
                let c = command_spec(
                    final(self).filter,
                    old(self).settings,
                    old(self).prev_angle,
                    old(self).last_params,
                    kv,
                    ka,
                );
                if l1_distance_spec(c, old(self).last_params) > old(self).settings.min_change {
                    r == Option::Some(c) && final(self).last_params == c
                } else {
                    r is None && final(self).last_params == old(self).last_params
                }
            }),
    {
        let point_for_detector = self.filter.get_estimated_position();
        let old_pos = match point_for_detector {
            Option::Some(gp) => Option::Some(self.p_c.convert_to_image_coords(&gp)),
            Option::None => Option::None,
        };
        self.detector.detect_new_position(contours, old_pos, &self.p_c);

        let position = self.detector.get_detected_position();
        let detected_angle = self.detector.get_detected_angle();
        let certainty = self.detector.get_detection_certainty();
        self.filter.update_estimation(position, detected_angle, certainty);

        self.control_the_drone(kv, ka)
    }
}

/// The debounce law: once a command has been issued, running the control
/// computation again on an unchanged estimate issues nothing, because the
/// recomputed command equals the remembered one and their distance is
/// zero.  Actuation is therefore never flooded with repeats of the same
/// command.
pub proof fn lemma_debounce_idempotent<D: Detector, F: Filter>(
    pre: HatFollower<D, F>,
    post: HatFollower<D, F>,
    kv: i64,
    ka: i64,
)
    requires
        pre.wf(),
        pre.issues_spec(kv, ka),
        post.filter == pre.filter,
        post.settings == pre.settings,
        post.prev_angle == pre.prev_angle,
        post.last_params == command_spec(
            pre.filter,
            pre.settings,
            pre.prev_angle,
            pre.last_params,
            kv,
            ka,
        ),
    ensures
        !post.issues_spec(kv, ka),
{
    let c = command_spec(pre.filter, pre.settings, pre.prev_angle, pre.last_params, kv, ka);
    let c2 = command_spec(post.filter, post.settings, post.prev_angle, post.last_params, kv, ka);
    assert(c2 == c);
    assert(l1_distance_spec(c2, post.last_params) == 0);
}

} // verus!

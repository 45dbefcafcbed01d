use vstd::prelude::*;
use vstd::seq_lib::*;

use crate::angle::HALF_PI;
use crate::angle::atan_ratio_spec;
use crate::angle::atan_ratio;
use crate::fixed::SCALE;
use crate::fixed::abs_spec;
use crate::geometric_point::GeometricPoint;
use crate::geometric_point::centroid_spec;
use crate::geometric_point::closest_index_spec;
use crate::geometric_point::coord_within;
use crate::geometric_point::get_center_of_geometric_points;
use crate::geometric_point::get_closest_from_geometric_points_to_point;
use crate::geometric_point::lemma_coordinate_sums_bounded;
use crate::geometric_point::lemma_mean_within;
use crate::hat::Hat;
use crate::point_converter::PointConverter;
use crate::point_converter::RasterPoint;
use crate::point_converter::cart_x_spec;
use crate::point_converter::cart_y_spec;
use crate::traits::Detector;

verus! {

/// The numerator of the certainty formula: certainty is `500` square pixels
/// divided by the distance between the expected and the found area, so in
/// fixed point the numerator carries the scale twice (once because the area
/// distance is itself scaled, once for the scaled result).
pub const CERTAINTY_NUMERATOR: i64 = 500 * SCALE * SCALE;

/// A contour may hold at most this many points, which keeps every area
/// accumulation far from the integer limits.
pub const MAX_CONTOUR_POINTS: usize = 20_000;

/// The largest expected-area value a marker description may carry, in
/// fixed-point square pixels.
pub const MAX_EXPECTED_AREA: i64 = 1_000_000_000_000_000;

/// The cross product of two raster points, the signed parallelogram area
/// their position vectors span.
pub open spec fn cross_spec(p: RasterPoint, q: RasterPoint) -> int {
    p.x * q.y - q.x * p.y
}

/// The cyclic successor of index `i` in a contour of length `len`.
pub open spec fn next_index_spec(len: int, i: int) -> int {
    if i + 1 == len {
        0
    } else {
        i + 1
    }
}

/// The sum of the cross products of the first `k` edges of the closed
/// polygon whose vertices are `s`, twice its signed area once `k` reaches
/// the full length.
pub open spec fn shoelace_partial_spec(s: Seq<RasterPoint>, k: int) -> int
    decreases k,
{
    if k <= 0 {
        0
    } else {
        shoelace_partial_spec(s, k - 1) + cross_spec(
            s[k - 1],
            s[next_index_spec(s.len() as int, k - 1)],
        )
    }
}

/// The area a contour encloses, in fixed-point square pixels: half the
/// absolute shoelace sum of its vertex cycle.
pub open spec fn contour_area_spec(s: Seq<RasterPoint>) -> int {
    abs_spec(shoelace_partial_spec(s, s.len() as int)) * 500_000
}

/// A candidate contour qualifies for selection when it has at least one
/// point and its area lies within the inclusive band from half the expected
/// area to one and a half times the expected area.
pub open spec fn qualifies_spec(c: Seq<RasterPoint>, expected: int) -> bool {
    &&& c.len() >= 1
    &&& 2 * contour_area_spec(c) >= expected
    &&& 2 * contour_area_spec(c) <= 3 * expected
}

/// The distance between the expected area and a contour's area.
pub open spec fn area_diff_spec(c: Seq<RasterPoint>, expected: int) -> int {
    abs_spec(expected - contour_area_spec(c))
}

/// The index of the selected contour among the first `n` candidates: the
/// earliest qualifying contour with minimal area distance, or nothing if no
/// candidate qualifies.  A later candidate displaces an earlier one only
/// when its area distance is strictly smaller.
pub open spec fn best_fit_prefix_spec(cs: Seq<Seq<RasterPoint>>, expected: int, n: int) -> Option<
    int,
>
    decreases n,
{
    if n <= 0 {
        Option::None
    } else {
        let prev = best_fit_prefix_spec(cs, expected, n - 1);
        if qualifies_spec(cs[n - 1], expected) {
            match prev {
                Option::None => Option::Some(n - 1),
                Option::Some(i) => {
                    if area_diff_spec(cs[n - 1], expected) < area_diff_spec(cs[i], expected) {
                        Option::Some(n - 1)
                    } else {
                        Option::Some(i)
                    }
                },
            }
        } else {
            prev
        }
    }
}

/// The certainty of a selection: perfect for an exact area match, otherwise
/// `500` square pixels over the area distance, clamped into `[0.0, 1.0]`.
pub open spec fn certainty_spec(expected: int, area: int) -> int {
    if area == expected {
        SCALE as int
    } else {
        let c = (CERTAINTY_NUMERATOR as int) / abs_spec(expected - area);
        if c > SCALE {
            SCALE as int
        } else {
            c
        }
    }
}

/// Certainty always lies in `[0.0, 1.0]`, and an exact area match has
/// certainty exactly `1.0`.
pub proof fn lemma_certainty_bounds(expected: int, area: int)
    ensures
        0 <= certainty_spec(expected, area) <= SCALE,
        area == expected ==> certainty_spec(expected, area) == SCALE,
{
    if area != expected {
        vstd::arithmetic::div_mod::lemma_div_pos_is_pos(
            CERTAINTY_NUMERATOR as int,
            abs_spec(expected - area),
        );
    }
}

/// What selection promises: a selected contour is a qualifying candidate
/// whose area distance no other qualifying candidate beats, and it is the
/// earliest among the equally good ones; and nothing is selected only when
/// no candidate qualifies.  In particular a contour whose area falls
/// outside the band is never selected, however the other candidates look.
pub proof fn lemma_best_fit_properties(cs: Seq<Seq<RasterPoint>>, expected: int, n: int)
    requires
        0 <= n <= cs.len(),
    ensures
        best_fit_prefix_spec(cs, expected, n) is None ==> forall|j: int|
            0 <= j < n ==> !qualifies_spec(#[trigger] cs[j], expected),
        best_fit_prefix_spec(cs, expected, n) matches Option::Some(i) ==> {
            &&& 0 <= i < n
            &&& qualifies_spec(cs[i], expected)
            &&& forall|j: int|
                0 <= j < n && qualifies_spec(#[trigger] cs[j], expected) ==> area_diff_spec(
                    cs[i],
                    expected,
                ) <= area_diff_spec(cs[j], expected)
            &&& forall|j: int|
                0 <= j < i && qualifies_spec(#[trigger] cs[j], expected) ==> area_diff_spec(
                    cs[i],
                    expected,
                ) < area_diff_spec(cs[j], expected)
        },
    decreases n,
{
    if n > 0 {
        lemma_best_fit_properties(cs, expected, n - 1);
    }
}

/// A contour outside the area band is never the selected one; in
/// particular, one with more than double the expected area is not selected
/// even if it is the only candidate.
pub proof fn lemma_area_band_rejection(cs: Seq<Seq<RasterPoint>>, expected: int, n: int, i: int)
    requires
        0 <= n <= cs.len(),
        0 <= i < n,
        2 * contour_area_spec(cs[i]) < expected || 2 * contour_area_spec(cs[i]) > 3 * expected,
    ensures
        best_fit_prefix_spec(cs, expected, n) != Option::<int>::Some(i),
{
    lemma_best_fit_properties(cs, expected, n);
}

/// The sequence of contours as mathematical point sequences.
pub open spec fn contour_views_spec(cs: Seq<Vec<RasterPoint>>) -> Seq<Seq<RasterPoint>> {
    cs.map_values(|v: Vec<RasterPoint>| v@)
}

/// One contour is short enough for area sums and lies within a frame of
/// the given size.
pub open spec fn contour_in_frame_spec(s: Seq<RasterPoint>, w: int, h: int) -> bool {
    &&& s.len() <= MAX_CONTOUR_POINTS
    &&& forall|j: int| 0 <= j < s.len() ==> 0 <= (#[trigger] s[j]).x <= w && 0 <= s[j].y <= h
}

/// Every contour of the set is short enough for area sums and lies within
/// a frame of the given size.
pub open spec fn contours_in_frame_spec(cs: Seq<Vec<RasterPoint>>, w: int, h: int) -> bool {
    forall|i: int| 0 <= i < cs.len() ==> contour_in_frame_spec((#[trigger] cs[i])@, w, h)
}

/// The cross product of two in-frame raster points.
fn cross(p: &RasterPoint, q: &RasterPoint) -> (r: i64)
    requires
        0 <= p.x <= 16_000,
        0 <= p.y <= 16_000,
        0 <= q.x <= 16_000,
        0 <= q.y <= 16_000,
    ensures
        r == cross_spec(*p, *q),
        -256_000_000 <= r <= 256_000_000,
{
    proof {
        assert(0 <= (p.x as int) * (q.y as int) <= 256_000_000 && 0 <= (q.x as int) * (
        p.y as int) <= 256_000_000) by (nonlinear_arith)
            requires
                0 <= p.x <= 16_000,
                0 <= p.y <= 16_000,
                0 <= q.x <= 16_000,
                0 <= q.y <= 16_000,
        ;
    }
    (p.x as i64) * (q.y as i64) - (q.x as i64) * (p.y as i64)
}

/// The area the contour encloses, in fixed-point square pixels, by the
/// shoelace formula over the closed vertex cycle.  Collinear or repeated
/// points simply contribute no area.
pub fn contour_area(contour: &Vec<RasterPoint>) -> (r: i64)
    requires
        contour@.len() <= MAX_CONTOUR_POINTS,
        forall|i: int|
            0 <= i < contour@.len() ==> 0 <= (#[trigger] contour@[i]).x <= 16_000 && 0
                <= contour@[i].y <= 16_000,
    ensures
        r == contour_area_spec(contour@),
        0 <= r <= 5_120_000_000_000_000_000,
{
    let n = contour.len();
    let mut sum: i64 = 0;
    let mut i: usize = 0;
    while i < n
        invariant
            0 <= i <= n,
            n == contour@.len() <= MAX_CONTOUR_POINTS,
            forall|k: int|
                0 <= k < n ==> 0 <= (#[trigger] contour@[k]).x <= 16_000 && 0 <= contour@[k].y
                    <= 16_000,
            sum == shoelace_partial_spec(contour@, i as int),
            -512_000_000 * (i as int) <= sum <= 512_000_000 * (i as int),
        decreases n - i,
    {
        let succ = if i + 1 == n {
            0
        } else {
            i + 1
        };
        let term = cross(&contour[i], &contour[succ]);
        proof {
            assert(-512_000_000 * (i as int) - 512_000_000 == -512_000_000 * ((i + 1) as int)
                && 512_000_000 * (i as int) + 512_000_000 == 512_000_000 * ((i + 1) as int))
                by (nonlinear_arith);
        }
        sum = sum + term;
        i = i + 1;
    }
    let magnitude = if sum >= 0 {
        sum
    } else {
        -sum
    };
    magnitude * 500_000
}

/// Picks the candidate whose area is closest to the expected one, but only
/// among candidates within the inclusive band from half to one and a half
/// times the expected area; candidates outside the band are never taken,
/// even if nothing better exists.  Returns the index of the selected
/// contour and the certainty of the match, or nothing if no candidate
/// qualifies.
pub fn get_best_fit_contour(contours: &Vec<Vec<RasterPoint>>, size_avg: i64) -> (r: Option<
    (usize, i64),
>)
    requires
        0 < size_avg <= MAX_EXPECTED_AREA,
        contours_in_frame_spec(contours@, 16_000, 16_000),
    ensures
        r is None <==> best_fit_prefix_spec(
            contour_views_spec(contours@),
            size_avg as int,
            contours@.len() as int,
        ) is None,
        r matches Option::Some((i, cert)) ==> {
            &&& best_fit_prefix_spec(
                contour_views_spec(contours@),
                size_avg as int,
                contours@.len() as int,
            ) == Option::Some(i as int)
            &&& cert == certainty_spec(size_avg as int, contour_area_spec(contours@[i as int]@))
            &&& 0 <= cert <= SCALE
            &&& qualifies_spec(contours@[i as int]@, size_avg as int)
        },
{
    let ghost views = contour_views_spec(contours@);
    let n = contours.len();
    let mut best: Option<usize> = Option::None;
    let mut best_diff: i64 = 0;
    let mut i: usize = 0;
    while i < n
        invariant
            0 <= i <= n,
            n == contours@.len(),
            0 < size_avg <= MAX_EXPECTED_AREA,
            contours_in_frame_spec(contours@, 16_000, 16_000),
            views == contour_views_spec(contours@),
            best is None <==> best_fit_prefix_spec(views, size_avg as int, i as int) is None,
            best matches Option::Some(k) ==> {
                &&& k < i
                &&& best_fit_prefix_spec(views, size_avg as int, i as int) == Option::Some(
                    k as int,
                )
                &&& best_diff == area_diff_spec(views[k as int], size_avg as int)
                &&& 0 <= best_diff <= MAX_EXPECTED_AREA
            },
        decreases n - i,
    {
        let c = &contours[i];
        proof {
            assert(views[i as int] == contours@[i as int]@);
        }
        let area = contour_area(c);
        let qualifies = c.len() >= 1 && (area as i128) * 2 >= size_avg as i128 && (area as i128)
            * 2 <= (size_avg as i128) * 3;
        if qualifies {
            let diff = if size_avg >= area {
                size_avg - area
            } else {
                area - size_avg
            };
            match best {
                Option::None => {
                    best = Option::Some(i);
                    best_diff = diff;
                },
                Option::Some(_) => {
                    if diff < best_diff {
                        best = Option::Some(i);
                        best_diff = diff;
                    }
                },
            }
        }
        i = i + 1;
    }
    match best {
        Option::None => Option::None,
        Option::Some(k) => {
            proof {
                assert(views[k as int] == contours@[k as int]@);
                lemma_best_fit_properties(views, size_avg as int, n as int);
                lemma_certainty_bounds(
                    size_avg as int,
                    contour_area_spec(contours@[k as int]@),
                );
            }
            let cert = if best_diff == 0 {
                SCALE
            } else {
                let c = CERTAINTY_NUMERATOR / best_diff;
                if c > SCALE {
                    SCALE
                } else {
                    c
                }
            };
            Option::Some((k, cert))
        },
    }
}

/// A marker orientation: either the vertical sentinel, standing for an
/// angle of exactly half pi, or an angle whose tangent exists, strictly
/// between minus and plus half pi.
#[derive(Clone, Copy, Debug, PartialEq, Eq, Structural)]
pub enum TanableAngle {
    Vertical,
    Angle(i64),
}

/// The angle in fixed-point radians that an orientation stands for.
pub open spec fn angle_value_spec(t: TanableAngle) -> i64 {
    match t {
        TanableAngle::Vertical => HALF_PI,
        TanableAngle::Angle(v) => v,
    }
}

/// An orientation is well formed when an explicit angle lies strictly
/// between minus and plus half pi, so that together with the vertical
/// sentinel every orientation value lies in the half-open range up to and
/// including half pi.
pub open spec fn angle_wf_spec(t: TanableAngle) -> bool {
    t matches TanableAngle::Angle(v) ==> -HALF_PI < v < HALF_PI
}

/// The reflection of `a` through `c`.
pub open spec fn reflect_spec(c: GeometricPoint, a: GeometricPoint) -> GeometricPoint {
    GeometricPoint { x: (2 * c.x - a.x) as i32, y: (2 * c.y - a.y) as i32 }
}

/// The two near-antipodal boundary points the orientation estimate rests
/// on: the contour point closest to the centroid, and the contour point
/// closest to its reflection through the centroid.
pub open spec fn side_points_spec(s: Seq<GeometricPoint>, c: GeometricPoint) -> (
    GeometricPoint,
    GeometricPoint,
) {
    let a = s[closest_index_spec(s, c, s.len() as int)];
    let b = s[closest_index_spec(s, reflect_spec(c, a), s.len() as int)];
    (a, b)
}

/// The orientation derived from the two side points: the vertical sentinel
/// when they share their y coordinate, otherwise the arctangent of the
/// inverse slope of the line joining them — the normal of the marker's
/// long axis.
pub open spec fn tanable_angle_spec(a: GeometricPoint, b: GeometricPoint) -> TanableAngle {
    if a.y - b.y == 0 {
        TanableAngle::Vertical
    } else {
        TanableAngle::Angle(atan_ratio_spec(a.x - b.x, a.y - b.y) as i64)
    }
}

/// A contour's point converted to the centered Cartesian system of a frame
/// of the given size.
pub open spec fn converted_contour_spec(s: Seq<RasterPoint>, w: int, h: int) -> Seq<
    GeometricPoint,
> {
    s.map_values(
        |p: RasterPoint|
            GeometricPoint { x: cart_x_spec(w, p.x as int) as i32, y: cart_y_spec(h, p.y as int) as i32 },
    )
}

/// Finds the two closest contour points to the two sides of the marker:
/// the point closest to the center, and the point closest to the
/// reflection of that point through the center.
pub fn get_points_from_two_sides(center_point: &GeometricPoint, contour: &Vec<GeometricPoint>) -> (r:
    (GeometricPoint, GeometricPoint))
    requires
        1 <= contour@.len(),
        forall|i: int| 0 <= i < contour@.len() ==> coord_within(#[trigger] contour@[i], 8_000),
        coord_within(*center_point, 8_000),
    ensures
        r == side_points_spec(contour@, *center_point),
        coord_within(r.0, 8_000),
        coord_within(r.1, 8_000),
{
    let (closest_point, _d) = get_closest_from_geometric_points_to_point(contour, center_point);
    proof {
        crate::geometric_point::lemma_closest_index_is_min(
            contour@,
            *center_point,
            contour@.len() as int,
        );
    }
    let symmetric_to_center = GeometricPoint::new(
        center_point.x * 2 - closest_point.x,
        center_point.y * 2 - closest_point.y,
    );
    let (other_point, _d2) = get_closest_from_geometric_points_to_point(
        contour,
        &symmetric_to_center,
    );
    proof {
        crate::geometric_point::lemma_closest_index_is_min(
            contour@,
            symmetric_to_center,
            contour@.len() as int,
        );
    }
    (closest_point, other_point)
}

/// The most basic detector this crate offers: among the contours found in
/// the marker's color range it selects the one closest in area to the
/// expected size (within half to one-and-a-half times that size),
/// estimates the position as the centroid of the contour, and the
/// orientation as the normal of the line joining the contour's two sides.
///
/// The detection certainty grows as the area match gets closer and the
/// reported angle always lies between minus half pi exclusive and half pi
/// inclusive.  Previous positions of the tracked object play no part.
pub struct NaiveDetector {
    pub point: Option<GeometricPoint>,
    pub cert: i64,
    pub angle: TanableAngle,
    pub hat: Hat,
    pub hat_side_points: (GeometricPoint, GeometricPoint),
}

impl NaiveDetector {
    /// The detector's state stays within the ranges its contracts promise:
    /// a well-formed marker description, a certainty in `[0.0, 1.0]`, a
    /// well-formed orientation, and a position within the frame's
    /// Cartesian bounds.
    pub open spec fn wf(&self) -> bool {
        &&& self.hat.wf()
        &&& 0 <= self.cert <= SCALE
        &&& angle_wf_spec(self.angle)
        &&& self.point matches Option::Some(p) ==> coord_within(p, 8_000)
    }

    /// A detector looking for the marker that `hat` describes.
    pub fn new(hat: Hat) -> (r: NaiveDetector)
        requires
            hat.wf(),
        ensures
            r.point is None,
            r.cert == 0,
            r.angle == TanableAngle::Angle(0i64),
            r.hat == hat,
            r.hat_side_points == (GeometricPoint { x: 0, y: 0 }, GeometricPoint { x: 0, y: 0 }),
            r.wf(),
    {
        NaiveDetector {
            point: Option::None,
            cert: 0,
            angle: TanableAngle::Angle(0),
            hat_side_points: (GeometricPoint::new(0, 0), GeometricPoint::new(0, 0)),
            hat,
        }
    }

    /// The orientation of the marker whose contour and centroid are given:
    /// the normal of the line joining the contour's two side points.  The
    /// side points are recorded for diagnostic display.
    fn get_angle(&mut self, center_point: &GeometricPoint, contour: &Vec<GeometricPoint>) -> (r:
        TanableAngle)
        requires
            1 <= contour@.len(),
            forall|i: int|
                0 <= i < contour@.len() ==> coord_within(#[trigger] contour@[i], 8_000),
            coord_within(*center_point, 8_000),
        ensures
            final(self).hat_side_points == side_points_spec(contour@, *center_point),
            r == tanable_angle_spec(final(self).hat_side_points.0, final(self).hat_side_points.1),
            angle_wf_spec(r),
            final(self).point == old(self).point,
            final(self).cert == old(self).cert,
            final(self).angle == old(self).angle,
            final(self).hat == old(self).hat,
    {
        let (a, b) = get_points_from_two_sides(center_point, contour);
        let d = a.y - b.y;
        self.hat_side_points = (a, b);
        if d == 0 {
            return TanableAngle::Vertical;
        }
        TanableAngle::Angle(atan_ratio((a.x - b.x) as i64, d as i64))
    }

}

impl Detector for NaiveDetector {
    /// The detector's state stays within the ranges the trait promises.
    open spec fn inv(&self) -> bool {
        self.wf()
    }

    /// The position the latest frame's detection produced, if any.
    open spec fn detected_position_spec(&self) -> Option<GeometricPoint> {
        self.point
    }

    /// The orientation the latest frame's detection produced: the stored
    /// angle, with the vertical sentinel standing for half pi.
    open spec fn detected_angle_spec(&self) -> Option<i64> {
        Option::Some(angle_value_spec(self.angle))
    }

    /// The certainty of the latest frame's detection.
    open spec fn detection_certainty_spec(&self) -> i64 {
        self.cert
    }

    /// The position the latest frame's detection produced, if any.
    fn get_detected_position(&self) -> (r: Option<GeometricPoint>) {
        self.point
    }

    /// The orientation the latest frame's detection produced, always in
    /// the half-open range from minus half pi exclusive to half pi
    /// inclusive.
    fn get_detected_angle(&self) -> (r: Option<i64>) {
        match self.angle {
            TanableAngle::Angle(i) => Option::Some(i),
            TanableAngle::Vertical => Option::Some(HALF_PI),
        }
    }

    /// The certainty of the latest frame's detection, in `[0.0, 1.0]`.
    fn get_detection_certainty(&self) -> (r: i64) {
        self.cert
    }

    /// Recomputes position, orientation and certainty from one frame's
    /// contours, already extracted at the vision boundary and handed over
    /// in raster coordinates.  When no candidate contour qualifies, the
    /// certainty drops to zero and the position to absent, and the
    /// orientation keeps its previous value; nothing is reported as an
    /// error.
    fn detect_new_position(
        &mut self,
        contours: &Vec<Vec<RasterPoint>>,
        _old_pos: Option<RasterPoint>,
        p_c: &PointConverter,
    )
        ensures
            final(self).hat == old(self).hat,
            best_fit_prefix_spec(
                contour_views_spec(contours@),
                old(self).hat.size_avg as int,
                contours@.len() as int,
            ) is None ==> {
                &&& final(self).cert == 0
                &&& final(self).point is None
                &&& final(self).angle == old(self).angle
                &&& final(self).hat_side_points == old(self).hat_side_points
            },
            best_fit_prefix_spec(
                contour_views_spec(contours@),
                old(self).hat.size_avg as int,
                contours@.len() as int,
            ) matches Option::Some(i) ==> {
                let cc = converted_contour_spec(
                    contours@[i]@,
                    p_c.width as int,
                    p_c.height as int,
                );
                let center = centroid_spec(cc);
                &&& final(self).point == Option::Some(center)
                &&& final(self).cert == certainty_spec(
                    old(self).hat.size_avg as int,
                    contour_area_spec(contours@[i]@),
                )
                &&& final(self).hat_side_points == side_points_spec(cc, center)
                &&& final(self).angle == tanable_angle_spec(
                    side_points_spec(cc, center).0,
                    side_points_spec(cc, center).1,
                )
            },
    {
        let contour_option = get_best_fit_contour(contours, self.hat.size_avg);
        match contour_option {
            Option::Some((idx, cert)) => {
                proof {
                    lemma_best_fit_properties(
                        contour_views_spec(contours@),
                        old(self).hat.size_avg as int,
                        contours@.len() as int,
                    );
                    assert(contour_views_spec(contours@)[idx as int] == contours@[idx as int]@);
                    assert(contour_in_frame_spec(
                        contours@[idx as int]@,
                        p_c.width as int,
                        p_c.height as int,
                    ));
                }
                let contour = &contours[idx];
                let ghost cc = converted_contour_spec(
                    contour@,
                    p_c.width as int,
                    p_c.height as int,
                );
                let mut contour_cent: Vec<GeometricPoint> = Vec::new();
                let mut j: usize = 0;
                while j < contour.len()
                    invariant
                        0 <= j <= contour@.len(),
                        p_c.wf(),
                        contour_in_frame_spec(contour@, p_c.width as int, p_c.height as int),
                        cc == converted_contour_spec(contour@, p_c.width as int, p_c.height as int),
                        contour_cent@ == cc.take(j as int),
                        forall|k: int|
                            0 <= k < j ==> coord_within(#[trigger] contour_cent@[k], 8_000),
                    decreases contour@.len() - j,
                {
                    let p = p_c.convert_from_image_coords(&contour[j]);
                    contour_cent.push(p);
                    proof {
                        assert(contour_cent@ =~= cc.take(j + 1));
                    }
                    j = j + 1;
                }
                proof {
                    assert(contour_cent@ =~= cc);
                    lemma_coordinate_sums_bounded(contour_cent@, 8_000);
                    lemma_mean_within(
                        crate::geometric_point::sum_x_spec(contour_cent@),
                        contour_cent@.len() as int,
                        8_000,
                    );
                    lemma_mean_within(
                        crate::geometric_point::sum_y_spec(contour_cent@),
                        contour_cent@.len() as int,
                        8_000,
                    );
                }
                let center = get_center_of_geometric_points(&contour_cent);
                self.cert = cert;
                let angle = self.get_angle(&center, &contour_cent);
                self.angle = angle;
                self.point = Option::Some(center);
            },
            Option::None => {
                self.cert = 0;
                self.point = Option::None;
            },
        }
    }
}

} // verus!

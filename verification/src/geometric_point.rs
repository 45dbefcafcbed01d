use vstd::prelude::*;

use crate::fixed::div_trunc_spec;
use crate::fixed::div_trunc;

verus! {

/// A point in the centered Cartesian system (origin at the frame center,
/// y growing upward) that all tracking mathematics works in.  Keeping it a
/// type of its own ensures no raster-space point slips into a calculation
/// without an explicit conversion.
#[derive(Clone, Copy, Debug, PartialEq, Eq, Structural)]
pub struct GeometricPoint {
    pub x: i32,
    pub y: i32,
}

/// Both coordinates of `p` lie within `b` of zero.
pub open spec fn coord_within(p: GeometricPoint, b: int) -> bool {
    -b <= p.x <= b && -b <= p.y <= b
}

/// Squared Euclidean distance between two points.
pub open spec fn dist_sq_spec(a: GeometricPoint, b: GeometricPoint) -> int {
    (a.x - b.x) * (a.x - b.x) + (a.y - b.y) * (a.y - b.y)
}

/// Sum of the x coordinates of a sequence of points.
pub open spec fn sum_x_spec(s: Seq<GeometricPoint>) -> int
    decreases s.len(),
{
    if s.len() == 0 {
        0
    } else {
        sum_x_spec(s.drop_last()) + s.last().x
    }
}

/// Sum of the y coordinates of a sequence of points.
pub open spec fn sum_y_spec(s: Seq<GeometricPoint>) -> int
    decreases s.len(),
{
    if s.len() == 0 {
        0
    } else {
        sum_y_spec(s.drop_last()) + s.last().y
    }
}

/// The index of the first point of `s.take(n)` with minimal squared
/// distance to `c`, mirroring a left-to-right scan that keeps the earliest
/// minimum.
pub open spec fn closest_index_spec(s: Seq<GeometricPoint>, c: GeometricPoint, n: int) -> int
    decreases n,
{
    if n <= 1 {
        0
    } else {
        let i = closest_index_spec(s, c, n - 1);
        if dist_sq_spec(s[n - 1], c) < dist_sq_spec(s[i], c) {
            n - 1
        } else {
            i
        }
    }
}

/// The chosen index is a position of `s.take(n)` and no other position of
/// that prefix is strictly closer to `c`.
pub proof fn lemma_closest_index_is_min(s: Seq<GeometricPoint>, c: GeometricPoint, n: int)
    requires
        1 <= n <= s.len(),
    ensures
        0 <= closest_index_spec(s, c, n) < n,
        forall|j: int|
            0 <= j < n ==> dist_sq_spec(s[closest_index_spec(s, c, n)], c) <= dist_sq_spec(
                #[trigger] s[j],
                c,
            ),
    decreases n,
{
    if n > 1 {
        lemma_closest_index_is_min(s, c, n - 1);
    }
}

impl GeometricPoint {
    /// A point from its two coordinates.
    pub fn new(x: i32, y: i32) -> (r: GeometricPoint)
        ensures
            r.x == x,
            r.y == y,
    {
        GeometricPoint { x, y }
    }
}

/// The centroid of a sequence of points: each coordinate is the truncated
/// mean of the respective coordinates.
pub open spec fn centroid_spec(s: Seq<GeometricPoint>) -> GeometricPoint {
    GeometricPoint {
        x: div_trunc_spec(sum_x_spec(s), s.len() as int) as i32,
        y: div_trunc_spec(sum_y_spec(s), s.len() as int) as i32,
    }
}

/// If every coordinate of `s` is within `b`, the coordinate sums are within
/// `s.len() * b`.
pub proof fn lemma_coordinate_sums_bounded(s: Seq<GeometricPoint>, b: int)
    requires
        forall|i: int| 0 <= i < s.len() ==> coord_within(#[trigger] s[i], b),
    ensures
        -(s.len() * b) <= sum_x_spec(s) <= s.len() * b,
        -(s.len() * b) <= sum_y_spec(s) <= s.len() * b,
    decreases s.len(),
{
    if s.len() > 0 {
        lemma_coordinate_sums_bounded(s.drop_last(), b);
        assert((s.len() - 1) * b + b == s.len() * b) by (nonlinear_arith);
    }
}

/// The truncated mean of values whose sum is within `n * b` is within `b`.
pub proof fn lemma_mean_within(sum: int, n: int, b: int)
    requires
        1 <= n,
        0 <= b,
        -(n * b) <= sum <= n * b,
    ensures
        -b <= div_trunc_spec(sum, n) <= b,
{
    vstd::arithmetic::div_mod::lemma_div_multiples_vanish(b, n);
    if sum >= 0 {
        vstd::arithmetic::div_mod::lemma_div_pos_is_pos(sum, n);
        vstd::arithmetic::div_mod::lemma_div_is_ordered(sum, n * b, n);
    } else {
        vstd::arithmetic::div_mod::lemma_div_pos_is_pos(-sum, n);
        vstd::arithmetic::div_mod::lemma_div_is_ordered(-sum, n * b, n);
    }
}

/// The centroid of a contour: the unweighted arithmetic mean of all its
/// points, each coordinate divided with truncation toward zero.  Duplicate
/// points count once per occurrence, matching how a sampled boundary is
/// averaged.
pub fn get_center_of_geometric_points(contour: &Vec<GeometricPoint>) -> (r: GeometricPoint)
    requires
        1 <= contour@.len() <= 100_000_000,
        forall|i: int| 0 <= i < contour@.len() ==> coord_within(#[trigger] contour@[i], 16_000),
    ensures
        r.x == div_trunc_spec(sum_x_spec(contour@), contour@.len() as int),
        r.y == div_trunc_spec(sum_y_spec(contour@), contour@.len() as int),
        r == centroid_spec(contour@),
        coord_within(r, 16_000),
{
    let n = contour.len();
    let mut s_x: i64 = 0;
    let mut s_y: i64 = 0;
    let mut i: usize = 0;
    while i < n
        invariant
            0 <= i <= n,
            n == contour@.len(),
            1 <= n <= 100_000_000,
            forall|k: int| 0 <= k < n ==> coord_within(#[trigger] contour@[k], 16_000),
            s_x == sum_x_spec(contour@.take(i as int)),
            s_y == sum_y_spec(contour@.take(i as int)),
            -(i as int) * 16_000 <= s_x <= (i as int) * 16_000,
            -(i as int) * 16_000 <= s_y <= (i as int) * 16_000,
        decreases n - i,
    {
        proof {
            assert(contour@.take(i + 1).drop_last() =~= contour@.take(i as int));
            assert(contour@.take(i + 1).last() == contour@[i as int]);
            assert((i as int) * 16_000 + 16_000 == (i + 1) as int * 16_000) by (nonlinear_arith);
        }
        s_x = s_x + contour[i].x as i64;
        s_y = s_y + contour[i].y as i64;
        i = i + 1;
    }
    proof {
        assert(contour@.take(n as int) =~= contour@);
        lemma_mean_within(s_x as int, n as int, 16_000);
        lemma_mean_within(s_y as int, n as int, 16_000);
    }
    let c_x = div_trunc(s_x, n as i64);
    let c_y = div_trunc(s_y, n as i64);
    GeometricPoint { x: c_x as i32, y: c_y as i32 }
}

/// Squared Euclidean distance of two points whose coordinates differ by at
/// most 32 000, so that the squares stay within `i32`.
fn dist_sq(a: &GeometricPoint, c: &GeometricPoint) -> (r: i32)
    requires
        -32_000 <= a.x - c.x <= 32_000,
        -32_000 <= a.y - c.y <= 32_000,
    ensures
        r == dist_sq_spec(*a, *c),
        0 <= r <= 2_048_000_000,
{
    let dx = c.x - a.x;
    let dy = c.y - a.y;
    proof {
        assert(0 <= (dx as int) * (dx as int) <= 1_024_000_000 && 0 <= (dy as int) * (dy as int)
            <= 1_024_000_000) by (nonlinear_arith)
            requires
                -32_000 <= dx <= 32_000,
                -32_000 <= dy <= 32_000,
        ;
        assert((dx as int) * (dx as int) == (c.x - a.x) * (c.x - a.x) && (dy as int) * (dy as int)
            == (c.y - a.y) * (c.y - a.y));
        assert((c.x - a.x) * (c.x - a.x) == (a.x - c.x) * (a.x - c.x) && (c.y - a.y) * (c.y - a.y)
            == (a.y - c.y) * (a.y - c.y)) by (nonlinear_arith);
    }
    dx * dx + dy * dy
}

/// The point of the contour closest to `c` in squared Euclidean distance,
/// together with that squared distance.  Among equally close points the
/// earliest one wins.
pub fn get_closest_from_geometric_points_to_point(
    contour: &Vec<GeometricPoint>,
    c: &GeometricPoint,
) -> (r: (GeometricPoint, i32))
    requires
        1 <= contour@.len(),
        forall|i: int|
            0 <= i < contour@.len() ==> -32_000 <= (#[trigger] contour@[i]).x - c.x <= 32_000
                && -32_000 <= contour@[i].y - c.y <= 32_000,
    ensures
        r.0 == contour@[closest_index_spec(contour@, *c, contour@.len() as int)],
        r.1 == dist_sq_spec(r.0, *c),
        forall|j: int|
            0 <= j < contour@.len() ==> r.1 <= dist_sq_spec(#[trigger] contour@[j], *c),
{
    let n = contour.len();
    let mut best = contour[0];
    let mut best_d: i32 = dist_sq(&best, c);
    let mut i: usize = 1;
    while i < n
        invariant
            1 <= i <= n,
            n == contour@.len(),
            forall|k: int|
                0 <= k < n ==> -32_000 <= (#[trigger] contour@[k]).x - c.x <= 32_000 && -32_000
                    <= contour@[k].y - c.y <= 32_000,
            best == contour@[closest_index_spec(contour@, *c, i as int)],
            best_d == dist_sq_spec(best, *c),
        decreases n - i,
    {
        let d = dist_sq(&contour[i], c);
        if d < best_d {
            best = contour[i];
            best_d = d;
        }
        i = i + 1;
    }
    proof {
        lemma_closest_index_is_min(contour@, *c, n as int);
    }
    (best, best_d)
}

} // verus!

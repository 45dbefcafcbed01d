use vstd::prelude::*;

use crate::geometric_point::GeometricPoint;
use crate::geometric_point::coord_within;

verus! {

/// A point in raster image coordinates: origin at the top-left corner of
/// the frame, y growing downward.  Used only at the vision boundary and for
/// drawing, never inside tracking calculations.
#[derive(Clone, Copy, Debug, PartialEq, Eq, Structural)]
pub struct RasterPoint {
    pub x: i32,
    pub y: i32,
}

impl RasterPoint {
    /// A point from its two coordinates.
    pub fn new(x: i32, y: i32) -> (r: RasterPoint)
        ensures
            r.x == x,
            r.y == y,
    {
        RasterPoint { x, y }
    }
}

/// The Cartesian x coordinate of a raster x coordinate, for a frame of
/// width `w`: the frame center becomes zero.  The half-width is truncated,
/// never rounded, so that behavior at the frame edges is predictable for
/// odd widths too.
pub open spec fn cart_x_spec(w: int, rx: int) -> int {
    rx - w / 2
}

/// The Cartesian y coordinate of a raster y coordinate, for a frame of
/// height `h`: the y axis flips so that y grows upward.
pub open spec fn cart_y_spec(h: int, ry: int) -> int {
    h / 2 - ry
}

/// The raster x coordinate of a Cartesian x coordinate: the inverse of
/// `cart_x_spec`.
pub open spec fn raster_x_spec(w: int, cx: int) -> int {
    cx + w / 2
}

/// The raster y coordinate of a Cartesian y coordinate: the inverse of
/// `cart_y_spec`.
pub open spec fn raster_y_spec(h: int, cy: int) -> int {
    h / 2 - cy
}

/// Converting a point to the other coordinate system and back returns the
/// original point exactly, in both directions, for every frame size: both
/// conversions add and subtract the same truncated half-extents.
pub proof fn lemma_conversion_round_trip(w: int, h: int, x: int, y: int)
    ensures
        raster_x_spec(w, cart_x_spec(w, x)) == x,
        raster_y_spec(h, cart_y_spec(h, y)) == y,
        cart_x_spec(w, raster_x_spec(w, x)) == x,
        cart_y_spec(h, raster_y_spec(h, y)) == y,
{
}

/// Converts between raster points at the vision boundary and the centered
/// Cartesian points all tracking mathematics uses, for one frame size.
pub struct PointConverter {
    pub width: usize,
    pub height: usize,
}

impl PointConverter {
    /// A converter for frames of the given size.  The center of the frame
    /// is the origin of the Cartesian system.
    pub fn new(width: usize, height: usize) -> (r: PointConverter)
        requires
            1 <= width <= 16_000,
            1 <= height <= 16_000,
        ensures
            r.width == width,
            r.height == height,
            r.wf(),
    {
        PointConverter { width, height }
    }

    /// The converter serves a frame of positive size, bounded so that every
    /// conversion stays far from the integer limits.
    pub open spec fn wf(&self) -> bool {
        1 <= self.width <= 16_000 && 1 <= self.height <= 16_000
    }

    /// The origin of the Cartesian coordinate system.
    pub fn get_center(&self) -> (r: GeometricPoint)
        ensures
            r.x == 0,
            r.y == 0,
    {
        GeometricPoint::new(0, 0)
    }

    /// Takes a point in image coordinates and returns the same location in
    /// the centered Cartesian system.
    pub fn convert_from_image_coords(&self, point: &RasterPoint) -> (r: GeometricPoint)
        requires
            self.wf(),
            0 <= point.x <= self.width,
            0 <= point.y <= self.height,
        ensures
            r.x == cart_x_spec(self.width as int, point.x as int),
            r.y == cart_y_spec(self.height as int, point.y as int),
            coord_within(r, 8_000),
    {
        GeometricPoint::new(point.x - (self.width as i32 / 2), (self.height as i32 / 2) - point.y)
    }

    /// Takes a point in the centered Cartesian system and returns the same
    /// location in image coordinates.
    pub fn convert_to_image_coords(&self, point: &GeometricPoint) -> (r: RasterPoint)
        requires
            self.wf(),
            coord_within(*point, 16_000),
        ensures
            r.x == raster_x_spec(self.width as int, point.x as int),
            r.y == raster_y_spec(self.height as int, point.y as int),
    {
        RasterPoint::new(point.x + (self.width as i32 / 2), (self.height as i32 / 2) - point.y)
    }
}

} // verus!

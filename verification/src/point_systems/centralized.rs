use vstd::prelude::*;

use crate::geometric_point::GeometricPoint;
use crate::geometric_point::coord_within;
use crate::point_converter::RasterPoint;
use crate::point_converter::cart_x_spec;
use crate::point_converter::cart_y_spec;
use crate::point_converter::raster_x_spec;
use crate::point_converter::raster_y_spec;

verus! {

/// A frame-centered point system: the same centered Cartesian mapping as
/// `PointConverter`, offered as a point system of its own for callers that
/// work in terms of coordinate systems rather than converters.
pub struct Centralized {
    pub width: usize,
    pub height: usize,
}

impl Centralized {
    /// A converter for frames of the given size.
    pub fn new(width: usize, height: usize) -> (r: Centralized)
        requires
            1 <= width <= 16_000,
            1 <= height <= 16_000,
        ensures
            r.width == width,
            r.height == height,
            r.wf(),
    {
        Centralized { width, height }
    }

    /// The converter serves a frame of positive size, bounded so that every
    /// conversion stays far from the integer limits.
    pub open spec fn wf(&self) -> bool {
        1 <= self.width <= 16_000 && 1 <= self.height <= 16_000
    }

    /// The origin of the Cartesian coordinate system.
    pub fn get_center(&self) -> (r: GeometricPoint)
        ensures
            r.x == 0,
            r.y == 0,
    {
        GeometricPoint::new(0, 0)
    }

    /// Takes a point in image coordinates and returns the same location in
    /// the centered Cartesian system.
    pub fn from_image_coords(&self, point: &RasterPoint) -> (r: GeometricPoint)
        requires
            self.wf(),
            0 <= point.x <= self.width,
            0 <= point.y <= self.height,
        ensures
            r.x == cart_x_spec(self.width as int, point.x as int),
            r.y == cart_y_spec(self.height as int, point.y as int),
            coord_within(r, 8_000),
    {
        GeometricPoint::new(point.x - (self.width as i32 / 2), (self.height as i32 / 2) - point.y)
    }

    /// Takes a point in the centered Cartesian system and returns the same
    /// location in image coordinates.
    pub fn to_image_coords(&self, point: &GeometricPoint) -> (r: RasterPoint)
        requires
            self.wf(),
            coord_within(*point, 16_000),
        ensures
            r.x == raster_x_spec(self.width as int, point.x as int),
            r.y == raster_y_spec(self.height as int, point.y as int),
    {
        RasterPoint::new(point.x + (self.width as i32 / 2), (self.height as i32 / 2) - point.y)
    }
}

} // verus!

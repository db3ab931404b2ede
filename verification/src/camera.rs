//! The engine's view parameters, carried as scaled integers.

use vstd::prelude::*;

verus! {

/// Coordinates and angles are carried in units of one ten-thousandth:
/// `488566` stands for 48.8566 degrees.  Four decimal places hold every
/// entry of the fly-to table exactly, and integer values keep the camera
/// state inside verified arithmetic.
pub const UNITS_PER_DEGREE: i64 = 10000;

/// The engine's view parameters: zoom level, center, bearing and pitch,
/// each in ten-thousandths of its usual unit.
#[derive(Clone, Copy, Debug, PartialEq, Eq, Structural)]
pub struct Camera {
    pub zoom_e4: i64,
    pub lat_e4: i64,
    pub lon_e4: i64,
    pub bearing_e4: i64,
    pub pitch_e4: i64,
}

impl Camera {
    /// The initial viewpoint: zoom 0 at the origin, facing north, flat.
    pub open spec fn spec_origin() -> Camera {
        Camera { zoom_e4: 0, lat_e4: 0, lon_e4: 0, bearing_e4: 0, pitch_e4: 0 }
    }

    pub fn origin() -> (r: Camera)
        ensures
            r == Camera::spec_origin(),
    {
        Camera { zoom_e4: 0, lat_e4: 0, lon_e4: 0, bearing_e4: 0, pitch_e4: 0 }
    }

    /// The usual ranges: latitude within 90 degrees of the equator,
    /// longitude within 180 of the meridian, zoom nonnegative, bearing
    /// within a full turn, pitch at most 60 degrees.
    pub open spec fn wf(self) -> bool {
        &&& -900000 <= self.lat_e4 <= 900000
        &&& -1800000 <= self.lon_e4 <= 1800000
        &&& 0 <= self.zoom_e4
        &&& 0 <= self.bearing_e4 <= 3600000
        &&& 0 <= self.pitch_e4 <= 600000
    }
}

/// A named place's coordinates, in ten-thousandths of a degree.
#[derive(Clone, Copy, Debug, PartialEq, Eq, Structural)]
pub struct GeoPosition {
    pub lat_e4: i64,
    pub lon_e4: i64,
}

impl GeoPosition {
    /// Latitude within 90 degrees, longitude within 180.
    pub open spec fn wf(self) -> bool {
        &&& -900000 <= self.lat_e4 <= 900000
        &&& -1800000 <= self.lon_e4 <= 1800000
    }
}

} // verus!

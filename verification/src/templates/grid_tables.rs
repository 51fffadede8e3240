use vstd::prelude::*;
use crate::utils::byte_bit;

verus! {

/// The shape of the earth assumed by a grid definition.
#[derive(PartialEq, Eq, Structural, Clone, Copy, Debug)]
pub enum EarthShape {
    Spherical,
    SpecifiedRadiusSpherical,
    OblateIAU,
    OblateKilometerAxes,
    OblateIAGGRS80,
    WGS84,
    SphericalAuthalic,
    OblateMeterAxes,
    SphericalWGS84Radius,
    Missing,
}

/// The earth shape denoted by a code byte; codes outside the table are
/// treated as missing.
pub open spec fn earth_shape_of(code: u8) -> EarthShape {
    if code == 0 {
        EarthShape::Spherical
    } else if code == 1 {
        EarthShape::SpecifiedRadiusSpherical
    } else if code == 2 {
        EarthShape::OblateIAU
    } else if code == 3 {
        EarthShape::OblateKilometerAxes
    } else if code == 4 {
        EarthShape::OblateIAGGRS80
    } else if code == 5 {
        EarthShape::WGS84
    } else if code == 6 {
        EarthShape::SphericalAuthalic
    } else if code == 7 {
        EarthShape::OblateMeterAxes
    } else if code == 8 {
        EarthShape::SphericalWGS84Radius
    } else {
        EarthShape::Missing
    }
}

impl EarthShape {
    /// Decodes an earth-shape code byte.
    pub fn from_value(code: u8) -> (r: EarthShape)
        ensures
            r == earth_shape_of(code),
    {
        if code == 0 {
            EarthShape::Spherical
        } else if code == 1 {
            EarthShape::SpecifiedRadiusSpherical
        } else if code == 2 {
            EarthShape::OblateIAU
        } else if code == 3 {
            EarthShape::OblateKilometerAxes
        } else if code == 4 {
            EarthShape::OblateIAGGRS80
        } else if code == 5 {
            EarthShape::WGS84
        } else if code == 6 {
            EarthShape::SphericalAuthalic
        } else if code == 7 {
            EarthShape::OblateMeterAxes
        } else if code == 8 {
            EarthShape::SphericalWGS84Radius
        } else {
            EarthShape::Missing
        }
    }
}

/// Grid traversal directions and ordering decoded from the scanning-mode
/// flag byte; they must be consulted before applying any signed step size.
#[derive(PartialEq, Eq, Structural, Clone, Copy, Debug)]
pub struct ScanningModeFlags {
    /// Points along a row scan in the +i (west to east) direction.
    pub scans_positively_i: bool,
    /// Points along a column scan in the +j (south to north) direction.
    pub scans_positively_j: bool,
    /// Adjacent points in the j direction are consecutive in the data.
    pub adjacent_points_consecutive_j: bool,
    /// Successive rows scan in opposite directions.
    pub rows_alternate: bool,
}

/// The scanning-mode flags denoted by a flag byte.
pub open spec fn scanning_mode_of(b: u8) -> ScanningModeFlags {
    ScanningModeFlags {
        scans_positively_i: byte_bit(b, 0) == 0,
        scans_positively_j: byte_bit(b, 1) == 1,
        adjacent_points_consecutive_j: byte_bit(b, 2) == 1,
        rows_alternate: byte_bit(b, 3) == 1,
    }
}

/// Decodes the scanning-mode flag byte.
pub fn read_scanning_mode_flags(b: u8) -> (r: ScanningModeFlags)
    ensures
        r == scanning_mode_of(b),
{
    proof {
        reveal_with_fuel(crate::utils::pow2_nat, 8);
    }
    ScanningModeFlags {
        scans_positively_i: (b / 128) % 2 == 0,
        scans_positively_j: (b / 64) % 2 == 1,
        adjacent_points_consecutive_j: (b / 32) % 2 == 1,
        rows_alternate: (b / 16) % 2 == 1,
    }
}

/// Pole and bipolar behaviour decoded from the projection-centre flag byte.
#[derive(PartialEq, Eq, Structural, Clone, Copy, Debug)]
pub struct ProjectionCenterFlags {
    /// The south pole, not the north pole, is on the projection plane.
    pub south_pole_on_plane: bool,
    /// The projection is bipolar and symmetric.
    pub bipolar: bool,
}

/// The projection-centre flags denoted by a flag byte.
pub open spec fn projection_center_of(b: u8) -> ProjectionCenterFlags {
    ProjectionCenterFlags { south_pole_on_plane: byte_bit(b, 0) == 1, bipolar: byte_bit(b, 1) == 1 }
}

/// Decodes the projection-centre flag byte.
pub fn read_projection_center_flags(b: u8) -> (r: ProjectionCenterFlags)
    ensures
        r == projection_center_of(b),
{
    proof {
        reveal_with_fuel(crate::utils::pow2_nat, 8);
    }
    ProjectionCenterFlags {
        south_pole_on_plane: (b / 128) % 2 == 1,
        bipolar: (b / 64) % 2 == 1,
    }
}

/// A longitude above 180 degrees, in microdegrees, wrapped into the range
/// -180 to 180 degrees; longitudes are normalized this way before any
/// projection is built.
pub open spec fn normalized_longitude(lon: int) -> int {
    if lon > 180_000_000 {
        lon - 360_000_000
    } else {
        lon
    }
}

/// Normalizes a first-grid-point longitude, in microdegrees, into the
/// range -180 to 180 degrees.
pub fn normalize_longitude_microdegrees(lon: i32) -> (r: i32)
    ensures
        r as int == normalized_longitude(lon as int),
{
    if lon > 180_000_000 {
        lon - 360_000_000
    } else {
        lon
    }
}

} // verus!

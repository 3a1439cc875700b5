//! Locations: immutable, validated 3D positions.
//!
//! A location carries latitude and longitude in microdegrees, altitude and
//! accuracy in millimeters, and a confidence score in thousandths.  Values
//! are created only through the validating factory, so every location in
//! circulation satisfies the range invariants.

use vstd::prelude::*;

use crate::geo;
use crate::geo::{
    abs_int, spec_cos_nano, spec_distance_mm, spec_sin_nano, MAX_LAT_UDEG, MAX_LON_UDEG,
};

verus! {

/// Lowest accepted altitude, in millimeters (-100 m).
pub const MIN_ALTITUDE_MM: i64 = -100_000;

/// Highest accepted altitude, in millimeters (10 000 m).
pub const MAX_ALTITUDE_MM: i64 = 10_000_000;

/// Smallest accepted accuracy, in millimeters (0.01 m).
pub const MIN_ACCURACY_MM: i64 = 10;

/// Largest accepted accuracy, in millimeters (50 m).
pub const MAX_ACCURACY_MM: i64 = 50_000;

/// Default confidence score, in thousandths.
pub const DEFAULT_CONFIDENCE_PPK: u32 = 950;

/// Largest confidence score, in thousandths.
pub const MAX_CONFIDENCE_PPK: u32 = 1000;

/// Distances below this resolution are reported as failures, in millimeters.
pub const MIN_RESOLUTION_MM: u64 = 10;

/// Earth radius in centimeters, for the Cartesian projection.
pub const EARTH_RADIUS_CM: i64 = 637_100_000;

/// Failures of location construction and location arithmetic.  Each variant
/// carries the offending value in the fixed-point unit of its field.
#[derive(Clone, Copy, Debug, PartialEq, Eq, Structural)]
pub enum LocationError {
    InvalidLatitude { value_udeg: i64 },
    InvalidLongitude { value_udeg: i64 },
    InvalidAltitude { value_mm: i64 },
    InvalidAccuracy { value_mm: i64 },
    InvalidRadius { radius_mm: u64 },
    InsufficientResolution { distance_mm: u64 },
}

/// An immutable, validated position.
#[derive(Clone, Copy, Debug, PartialEq, Eq, Structural)]
pub struct Location {
    latitude_udeg: i64,
    longitude_udeg: i64,
    altitude_mm: i64,
    accuracy_mm: i64,
    confidence_ppk: u32,
}

/// A point of the Cartesian projection, in centimeters, on the sphere of
/// radius [`EARTH_RADIUS_CM`]: the altitude is folded into the `z` axis.
#[derive(Clone, Copy, Debug, PartialEq, Eq, Structural)]
pub struct CartesianPoint {
    pub x_cm: i64,
    pub y_cm: i64,
    pub z_cm: i64,
}

/// `x`-coordinate of the projection, in centimeters.
pub open spec fn spec_cart_x(lat: int, lon: int) -> int {
    let m = (637_100_000 * spec_cos_nano(lat) * abs_int(spec_cos_nano(lon)))
        / 1_000_000_000_000_000_000;
    if spec_cos_nano(lon) >= 0 {
        m
    } else {
        -m
    }
}

/// `y`-coordinate of the projection, in centimeters.
pub open spec fn spec_cart_y(lat: int, lon: int) -> int {
    let m = (637_100_000 * spec_cos_nano(lat) * abs_int(spec_sin_nano(lon)))
        / 1_000_000_000_000_000_000;
    if spec_sin_nano(lon) >= 0 {
        m
    } else {
        -m
    }
}

/// `z`-coordinate of the projection, in centimeters, altitude included.
pub open spec fn spec_cart_z(lat: int, alt_mm: int) -> int {
    let m = (637_100_000 * abs_int(spec_sin_nano(lat))) / 1_000_000_000;
    let alt_cm = if alt_mm >= 0 {
        alt_mm / 10
    } else {
        -((-alt_mm) / 10)
    };
    if spec_sin_nano(lat) >= 0 {
        m + alt_cm
    } else {
        -m + alt_cm
    }
}

impl Location {
    /// Range invariants of a validated location.
    #[verifier::type_invariant]
    pub closed spec fn wf(self) -> bool {
        &&& -MAX_LAT_UDEG <= self.latitude_udeg <= MAX_LAT_UDEG
        &&& -MAX_LON_UDEG <= self.longitude_udeg <= MAX_LON_UDEG
        &&& MIN_ALTITUDE_MM <= self.altitude_mm <= MAX_ALTITUDE_MM
        &&& MIN_ACCURACY_MM <= self.accuracy_mm <= MAX_ACCURACY_MM
        &&& self.confidence_ppk <= MAX_CONFIDENCE_PPK
    }

    /// Latitude in microdegrees.
    pub closed spec fn lat(self) -> int {
        self.latitude_udeg as int
    }

    /// Longitude in microdegrees.
    pub closed spec fn lon(self) -> int {
        self.longitude_udeg as int
    }

    /// Altitude in millimeters.
    pub closed spec fn alt(self) -> int {
        self.altitude_mm as int
    }

    /// Accuracy in millimeters.
    pub closed spec fn acc(self) -> int {
        self.accuracy_mm as int
    }

    /// Confidence in thousandths.
    pub closed spec fn conf(self) -> int {
        self.confidence_ppk as int
    }

    /// Validating factory.  Rejects each out-of-range field with a typed
    /// failure naming the offending value; the confidence defaults to
    /// [`DEFAULT_CONFIDENCE_PPK`] and is capped at [`MAX_CONFIDENCE_PPK`].
    pub fn new(
        latitude_udeg: i64,
        longitude_udeg: i64,
        altitude_mm: i64,
        accuracy_mm: i64,
        confidence_ppk: Option<u32>,
    ) -> (result: Result<Location, LocationError>)
        ensures
            ({
                let conf = match confidence_ppk {
                    Some(c) => if c > MAX_CONFIDENCE_PPK {
                        MAX_CONFIDENCE_PPK as int
                    } else {
                        c as int
                    },
                    None => DEFAULT_CONFIDENCE_PPK as int,
                };
                match result {
                    Ok(l) => {
                        &&& -MAX_LAT_UDEG <= latitude_udeg <= MAX_LAT_UDEG
                        &&& -MAX_LON_UDEG <= longitude_udeg <= MAX_LON_UDEG
                        &&& MIN_ALTITUDE_MM <= altitude_mm <= MAX_ALTITUDE_MM
                        &&& MIN_ACCURACY_MM <= accuracy_mm <= MAX_ACCURACY_MM
                        &&& l.lat() == latitude_udeg
                        &&& l.lon() == longitude_udeg
                        &&& l.alt() == altitude_mm
                        &&& l.acc() == accuracy_mm
                        &&& l.conf() == conf
                    },
                    Err(LocationError::InvalidLatitude { value_udeg }) => {
                        &&& value_udeg == latitude_udeg
                        &&& !(-MAX_LAT_UDEG <= latitude_udeg <= MAX_LAT_UDEG)
                    },
                    Err(LocationError::InvalidLongitude { value_udeg }) => {
                        &&& value_udeg == longitude_udeg
                        &&& -MAX_LAT_UDEG <= latitude_udeg <= MAX_LAT_UDEG
                        &&& !(-MAX_LON_UDEG <= longitude_udeg <= MAX_LON_UDEG)
                    },
                    Err(LocationError::InvalidAltitude { value_mm }) => {
                        &&& value_mm == altitude_mm
                        &&& -MAX_LAT_UDEG <= latitude_udeg <= MAX_LAT_UDEG
                        &&& -MAX_LON_UDEG <= longitude_udeg <= MAX_LON_UDEG
                        &&& !(MIN_ALTITUDE_MM <= altitude_mm <= MAX_ALTITUDE_MM)
                    },
                    Err(LocationError::InvalidAccuracy { value_mm }) => {
                        &&& value_mm == accuracy_mm
                        &&& -MAX_LAT_UDEG <= latitude_udeg <= MAX_LAT_UDEG
                        &&& -MAX_LON_UDEG <= longitude_udeg <= MAX_LON_UDEG
                        &&& MIN_ALTITUDE_MM <= altitude_mm <= MAX_ALTITUDE_MM
                        &&& !(MIN_ACCURACY_MM <= accuracy_mm <= MAX_ACCURACY_MM)
                    },
                    Err(_) => false,
                }
            }),
    {
        if !(-MAX_LAT_UDEG <= latitude_udeg && latitude_udeg <= MAX_LAT_UDEG) {
            return Err(LocationError::InvalidLatitude { value_udeg: latitude_udeg });
        }
        if !(-MAX_LON_UDEG <= longitude_udeg && longitude_udeg <= MAX_LON_UDEG) {
            return Err(LocationError::InvalidLongitude { value_udeg: longitude_udeg });
        }
        if !(MIN_ALTITUDE_MM <= altitude_mm && altitude_mm <= MAX_ALTITUDE_MM) {
            return Err(LocationError::InvalidAltitude { value_mm: altitude_mm });
        }
        if !(MIN_ACCURACY_MM <= accuracy_mm && accuracy_mm <= MAX_ACCURACY_MM) {
            return Err(LocationError::InvalidAccuracy { value_mm: accuracy_mm });
        }
        let conf: u32 = match confidence_ppk {
            Some(c) => if c > MAX_CONFIDENCE_PPK {
                MAX_CONFIDENCE_PPK
            } else {
                c
            },
            None => DEFAULT_CONFIDENCE_PPK,
        };
        Ok(Location {
            latitude_udeg,
            longitude_udeg,
            altitude_mm,
            accuracy_mm,
            confidence_ppk: conf,
        })
    }

    /// Latitude in microdegrees.
    pub fn latitude(&self) -> (r: i64)
        ensures
            r == self.lat(),
    {
        self.latitude_udeg
    }

    /// Longitude in microdegrees.
    pub fn longitude(&self) -> (r: i64)
        ensures
            r == self.lon(),
    {
        self.longitude_udeg
    }

    /// Altitude in millimeters.
    pub fn altitude(&self) -> (r: i64)
        ensures
            r == self.alt(),
    {
        self.altitude_mm
    }

    /// Accuracy in millimeters.
    pub fn accuracy(&self) -> (r: i64)
        ensures
            r == self.acc(),
    {
        self.accuracy_mm
    }

    /// Confidence in thousandths.
    pub fn confidence(&self) -> (r: u32)
        ensures
            r == self.conf(),
    {
        self.confidence_ppk
    }

    /// Distance to `other` in millimeters, total and symmetric.
    pub fn distance_mm(&self, other: &Location) -> (r: u64)
        ensures
            r as int == spec_distance_loc(*self, *other),
            r <= 18_200_000_000,
    {
        proof {
            use_type_invariant(*self);
            use_type_invariant(*other);
        }
        geo::distance_mm_raw(
            self.latitude_udeg,
            self.longitude_udeg,
            self.altitude_mm,
            other.latitude_udeg,
            other.longitude_udeg,
            other.altitude_mm,
        )
    }

    /// Distance to `other`, reported as a failure below the minimum
    /// resolution of [`MIN_RESOLUTION_MM`].
    pub fn calculate_distance(&self, other: &Location) -> (result: Result<u64, LocationError>)
        ensures
            ({
                let d = spec_distance_loc(*self, *other);
                match result {
                    Ok(r) => r as int == d && d >= MIN_RESOLUTION_MM,
                    Err(LocationError::InsufficientResolution { distance_mm }) => {
                        &&& distance_mm as int == d
                        &&& d < MIN_RESOLUTION_MM
                    },
                    Err(_) => false,
                }
            }),
    {
        let d: u64 = self.distance_mm(other);
        if d < MIN_RESOLUTION_MM {
            Err(LocationError::InsufficientResolution { distance_mm: d })
        } else {
            Ok(d)
        }
    }

    /// Whether `other` lies within `radius_mm`, shrunk by this location's
    /// confidence.  Radii outside (0, 50 m] are rejected; distances below
    /// the minimum resolution surface unchanged.
    pub fn is_within_radius(&self, other: &Location, radius_mm: u64) -> (result: Result<
        bool,
        LocationError,
    >)
        ensures
            ({
                let d = spec_distance_loc(*self, *other);
                match result {
                    Ok(b) => {
                        &&& 0 < radius_mm <= MAX_ACCURACY_MM
                        &&& d >= MIN_RESOLUTION_MM
                        &&& b == (d <= (radius_mm * self.conf()) / 1000)
                    },
                    Err(LocationError::InvalidRadius { radius_mm: v }) => {
                        &&& v == radius_mm
                        &&& !(0 < radius_mm <= MAX_ACCURACY_MM)
                    },
                    Err(LocationError::InsufficientResolution { distance_mm }) => {
                        &&& 0 < radius_mm <= MAX_ACCURACY_MM
                        &&& distance_mm as int == d
                        &&& d < MIN_RESOLUTION_MM
                    },
                    Err(_) => false,
                }
            }),
    {
        if radius_mm == 0 || radius_mm > MAX_ACCURACY_MM as u64 {
            return Err(LocationError::InvalidRadius { radius_mm });
        }
        let d: u64 = match self.calculate_distance(other) {
            Ok(d) => d,
            Err(e) => {
                return Err(e);
            },
        };
        proof {
            use_type_invariant(*self);
            assert((radius_mm as int) * (self.confidence_ppk as int) <= 50_000_000) by (
            nonlinear_arith)
                requires
                    0 <= radius_mm as int <= 50_000,
                    0 <= self.confidence_ppk as int <= 1000,
            ;
        }
        let adjusted: u64 = (radius_mm * (self.confidence_ppk as u64)) / 1000;
        Ok(d <= adjusted)
    }

    /// Cartesian projection used by the spatial index.
    pub fn to_point3(&self) -> (p: CartesianPoint)
        ensures
            p.x_cm == spec_cart_x(self.lat(), self.lon()),
            p.y_cm == spec_cart_y(self.lat(), self.lon()),
            p.z_cm == spec_cart_z(self.lat(), self.alt()),
            -EARTH_RADIUS_CM <= p.x_cm <= EARTH_RADIUS_CM,
            -EARTH_RADIUS_CM <= p.y_cm <= EARTH_RADIUS_CM,
            -638_200_000 <= p.z_cm <= 638_200_000,
    {
        proof {
            use_type_invariant(*self);
        }
        let c1: i64 = geo::cos_nano(self.latitude_udeg);
        let c2: i64 = geo::cos_nano(self.longitude_udeg);
        let s2: i64 = geo::sin_nano(self.longitude_udeg);
        let s1: i64 = geo::sin_nano(self.latitude_udeg);
        let a2: i64 = if c2 >= 0 {
            c2
        } else {
            -c2
        };
        let b2: i64 = if s2 >= 0 {
            s2
        } else {
            -s2
        };
        let a1: i64 = if s1 >= 0 {
            s1
        } else {
            -s1
        };
        proof {
            lemma_cart_product_bounds(c1 as int, a2 as int);
            lemma_cart_product_bounds(c1 as int, b2 as int);
        }
        let mx: i64 = (((637_100_000i128 * (c1 as i128) * (a2 as i128))
            / 1_000_000_000_000_000_000i128)) as i64;
        let my: i64 = (((637_100_000i128 * (c1 as i128) * (b2 as i128))
            / 1_000_000_000_000_000_000i128)) as i64;
        let mz: i64 = ((637_100_000i128 * (a1 as i128)) / 1_000_000_000i128) as i64;
        let alt_cm: i64 = if self.altitude_mm >= 0 {
            self.altitude_mm / 10
        } else {
            -((-self.altitude_mm) / 10)
        };
        let x: i64 = if c2 >= 0 {
            mx
        } else {
            -mx
        };
        let y: i64 = if s2 >= 0 {
            my
        } else {
            -my
        };
        let z: i64 = if s1 >= 0 {
            mz + alt_cm
        } else {
            -mz + alt_cm
        };
        CartesianPoint { x_cm: x, y_cm: y, z_cm: z }
    }
}

/// The projection of any validated location stays within the Earth radius,
/// with the altitude adding at most 10 km to the `z` axis.
pub proof fn lemma_cart_bounds(l: Location)
    requires
        l.wf(),
    ensures
        -EARTH_RADIUS_CM <= spec_cart_x(l.lat(), l.lon()) <= EARTH_RADIUS_CM,
        -EARTH_RADIUS_CM <= spec_cart_y(l.lat(), l.lon()) <= EARTH_RADIUS_CM,
        -638_200_000 <= spec_cart_z(l.lat(), l.alt()) <= 638_200_000,
{
    geo::lemma_cos_bounds(l.lat());
    geo::lemma_cos_bounds(l.lon());
    geo::lemma_sin_bounds(l.lon());
    geo::lemma_sin_bounds(l.lat());
    let c1 = spec_cos_nano(l.lat());
    lemma_cart_product_bounds(c1, abs_int(spec_cos_nano(l.lon())));
    lemma_cart_product_bounds(c1, abs_int(spec_sin_nano(l.lon())));
}

/// Products of the projection stay within the Earth radius once scaled back.
pub proof fn lemma_cart_product_bounds(c: int, a: int)
    requires
        0 <= c <= 1_000_000_000,
        0 <= a <= 1_000_000_000,
    ensures
        0 <= 637_100_000 * c * a <= 637_100_000_000_000_000_000_000_000,
        0 <= (637_100_000 * c * a) / 1_000_000_000_000_000_000 <= 637_100_000,
{
    assert(0 <= 637_100_000 * c * a <= 637_100_000_000_000_000_000_000_000) by (nonlinear_arith)
        requires
            0 <= c <= 1_000_000_000,
            0 <= a <= 1_000_000_000,
    ;
}

/// The origin of the device-local frame: latitude, longitude and altitude
/// all zero.
pub closed spec fn origin_location() -> Location {
    Location {
        latitude_udeg: 0,
        longitude_udeg: 0,
        altitude_mm: 0,
        accuracy_mm: 1000,
        confidence_ppk: DEFAULT_CONFIDENCE_PPK,
    }
}

/// The origin of the device-local frame has all coordinates zero.
pub proof fn lemma_origin_fields()
    ensures
        origin_location().lat() == 0,
        origin_location().lon() == 0,
        origin_location().alt() == 0,
        origin_location().wf(),
{
}

/// The origin of the device-local frame.
pub fn make_origin() -> (l: Location)
    ensures
        l == origin_location(),
        l.wf(),
        l.lat() == 0,
        l.lon() == 0,
        l.alt() == 0,
{
    Location {
        latitude_udeg: 0,
        longitude_udeg: 0,
        altitude_mm: 0,
        accuracy_mm: 1000,
        confidence_ppk: DEFAULT_CONFIDENCE_PPK,
    }
}

/// Distance between two locations, in millimeters.
pub open spec fn spec_distance_loc(a: Location, b: Location) -> int {
    spec_distance_mm(a.lat(), a.lon(), a.alt(), b.lat(), b.lon(), b.alt())
}

/// The distance from a location to itself is exactly zero, well within the
/// 1 cm precision target.
pub proof fn lemma_location_distance_self_zero(l: Location)
    requires
        l.wf(),
    ensures
        spec_distance_loc(l, l) == 0,
{
    geo::lemma_distance_self_zero(l.lat(), l.lon(), l.alt());
}

/// Distance between locations is symmetric.
pub proof fn lemma_location_distance_symmetric(a: Location, b: Location)
    ensures
        spec_distance_loc(a, b) == spec_distance_loc(b, a),
{
    geo::lemma_distance_symmetric(a.lat(), a.lon(), a.alt(), b.lat(), b.lon(), b.alt());
}

} // verus!

//! LiDAR point-cloud processing.
//!
//! A scan frame is a sequence of points in the sensor's frame, in
//! millimeters.  Processing applies the pose transform, keeps the points
//! whose magnitude lies within the configured range, and records each
//! survivor in the environment index under a synthetic location derived
//! from its coordinates and a monotonically generated identifier.
//!
//! The synthetic location encodes the device-local frame on the geodetic
//! grid around the frame origin: northward offsets become latitude,
//! eastward offsets longitude, and the vertical coordinate altitude.  Within
//! the 50 m operating radius the distance function then agrees with the
//! local Euclidean distance to well below the precision target.

use vstd::prelude::*;

use crate::geo::spec_distance_mm;
use crate::location::{spec_distance_loc, Location, LocationError};
use crate::spatial_index::{
    IndexFrame, SpatialIndex, SpatialIndexError, MAX_LIDAR_RANGE_MM, MIN_LIDAR_RANGE_MM,
};

verus! {

/// Largest accepted point-cloud size.
pub const MAX_POINTS_PER_SCAN: usize = 100_000;

/// Smallest accepted confidence threshold, in thousandths.
pub const MIN_CONFIDENCE_THRESHOLD_PPK: u32 = 850;

/// Batch size of point-cloud processing.
pub const BATCH_SIZE: usize = 1024;

/// Millimeters per microdegree, scaled by 10 000 (the numerator of the
/// truncating conversion between local offsets and microdegrees).
pub const MM_PER_UDEG_E4: i64 = 1_111_949;

/// Raw points whose coordinates exceed this bound (1 000 km) are outside
/// any sensor range and are discarded before the transform.
pub const MAX_RAW_COORD_MM: i64 = 1_000_000_000;

/// Failures of LiDAR processing.
#[derive(Clone, Copy, Debug, PartialEq, Eq, Structural)]
pub enum LiDARError {
    /// A scan range or environment-query radius outside
    /// `[MIN_LIDAR_RANGE_MM, MAX_LIDAR_RANGE_MM]`.
    InvalidScanRange { value_mm: u64 },
    /// A confidence threshold outside
    /// `[MIN_CONFIDENCE_THRESHOLD_PPK, 1000]`.
    InvalidConfidence { value_ppk: u32 },
    /// A point cloud larger than [`MAX_POINTS_PER_SCAN`].
    ExcessivePointCloud { size: usize },
    /// A pose transform with entries beyond the supported magnitudes.
    InvalidTransform,
    /// A location computation failed.
    Location(LocationError),
    /// The environment index refused an operation.
    SpatialIndex(SpatialIndexError),
    /// The environment index hold was not acquired in time.
    LockTimeout,
}

/// Quality label of a scan frame.
#[derive(Clone, Copy, Debug, PartialEq, Eq, Structural, PartialOrd, Ord, Hash)]
pub enum ScanQuality {
    Low,
    Medium,
    High,
}

/// A 3D sample of a scan frame, in millimeters, in the sensor's frame.
#[derive(Clone, Copy, Debug, PartialEq, Eq, Structural)]
pub struct ScanPoint {
    pub x_mm: i64,
    pub y_mm: i64,
    pub z_mm: i64,
}

/// A rigid pose: a 3x3 linear part scaled by 1 000 000 and a translation in
/// millimeters.  It maps sensor coordinates to the frame of the environment
/// index.
#[derive(Clone, Copy, Debug, PartialEq, Eq, Structural)]
pub struct PoseTransform {
    r00: i64,
    r01: i64,
    r02: i64,
    t0_mm: i64,
    r10: i64,
    r11: i64,
    r12: i64,
    t1_mm: i64,
    r20: i64,
    r21: i64,
    r22: i64,
    t2_mm: i64,
}

/// Largest magnitude of a linear entry (a scale factor of 2 000).
pub const MAX_POSE_LINEAR: i64 = 2_000_000_000;

/// Largest magnitude of a translation entry, in millimeters (1 000 km).
pub const MAX_POSE_TRANSLATION_MM: i64 = 1_000_000_000;

/// Truncating division by 1 000 000, for scaling transformed coordinates.
pub open spec fn tdiv_mil(a: int) -> int {
    if a >= 0 {
        a / 1_000_000
    } else {
        -((-a) / 1_000_000)
    }
}

impl PoseTransform {
    /// Entry magnitudes that keep the transform's arithmetic within bounds.
    #[verifier::type_invariant]
    pub closed spec fn wf(self) -> bool {
        &&& -MAX_POSE_LINEAR <= self.r00 <= MAX_POSE_LINEAR
        &&& -MAX_POSE_LINEAR <= self.r01 <= MAX_POSE_LINEAR
        &&& -MAX_POSE_LINEAR <= self.r02 <= MAX_POSE_LINEAR
        &&& -MAX_POSE_LINEAR <= self.r10 <= MAX_POSE_LINEAR
        &&& -MAX_POSE_LINEAR <= self.r11 <= MAX_POSE_LINEAR
        &&& -MAX_POSE_LINEAR <= self.r12 <= MAX_POSE_LINEAR
        &&& -MAX_POSE_LINEAR <= self.r20 <= MAX_POSE_LINEAR
        &&& -MAX_POSE_LINEAR <= self.r21 <= MAX_POSE_LINEAR
        &&& -MAX_POSE_LINEAR <= self.r22 <= MAX_POSE_LINEAR
        &&& -MAX_POSE_TRANSLATION_MM <= self.t0_mm <= MAX_POSE_TRANSLATION_MM
        &&& -MAX_POSE_TRANSLATION_MM <= self.t1_mm <= MAX_POSE_TRANSLATION_MM
        &&& -MAX_POSE_TRANSLATION_MM <= self.t2_mm <= MAX_POSE_TRANSLATION_MM
    }

    /// Row `0` of the linear part, scaled by 1 000 000.
    pub closed spec fn row0(self) -> (int, int, int, int) {
        (self.r00 as int, self.r01 as int, self.r02 as int, self.t0_mm as int)
    }

    /// Row `1` of the linear part, scaled by 1 000 000.
    pub closed spec fn row1(self) -> (int, int, int, int) {
        (self.r10 as int, self.r11 as int, self.r12 as int, self.t1_mm as int)
    }

    /// Row `2` of the linear part, scaled by 1 000 000.
    pub closed spec fn row2(self) -> (int, int, int, int) {
        (self.r20 as int, self.r21 as int, self.r22 as int, self.t2_mm as int)
    }

    /// The identity pose.
    pub fn identity() -> (t: PoseTransform)
        ensures
            t.row0() == (1_000_000int, 0int, 0int, 0int),
            t.row1() == (0int, 1_000_000int, 0int, 0int),
            t.row2() == (0int, 0int, 1_000_000int, 0int),
    {
        PoseTransform {
            r00: 1_000_000,
            r01: 0,
            r02: 0,
            t0_mm: 0,
            r10: 0,
            r11: 1_000_000,
            r12: 0,
            t1_mm: 0,
            r20: 0,
            r21: 0,
            r22: 1_000_000,
            t2_mm: 0,
        }
    }

    /// Validating factory from three rows `(linear x, linear y, linear z,
    /// translation)`: the linear entries are scaled by 1 000 000, the
    /// translation is in millimeters.  An entry beyond the supported
    /// magnitude is a numerically ill-formed pose and is rejected.
    pub fn from_rows(
        row0: (i64, i64, i64, i64),
        row1: (i64, i64, i64, i64),
        row2: (i64, i64, i64, i64),
    ) -> (result: Result<PoseTransform, LiDARError>)
        ensures
            ({
                let ok = {
                    &&& -MAX_POSE_LINEAR <= row0.0 <= MAX_POSE_LINEAR
                    &&& -MAX_POSE_LINEAR <= row0.1 <= MAX_POSE_LINEAR
                    &&& -MAX_POSE_LINEAR <= row0.2 <= MAX_POSE_LINEAR
                    &&& -MAX_POSE_TRANSLATION_MM <= row0.3 <= MAX_POSE_TRANSLATION_MM
                    &&& -MAX_POSE_LINEAR <= row1.0 <= MAX_POSE_LINEAR
                    &&& -MAX_POSE_LINEAR <= row1.1 <= MAX_POSE_LINEAR
                    &&& -MAX_POSE_LINEAR <= row1.2 <= MAX_POSE_LINEAR
                    &&& -MAX_POSE_TRANSLATION_MM <= row1.3 <= MAX_POSE_TRANSLATION_MM
                    &&& -MAX_POSE_LINEAR <= row2.0 <= MAX_POSE_LINEAR
                    &&& -MAX_POSE_LINEAR <= row2.1 <= MAX_POSE_LINEAR
                    &&& -MAX_POSE_LINEAR <= row2.2 <= MAX_POSE_LINEAR
                    &&& -MAX_POSE_TRANSLATION_MM <= row2.3 <= MAX_POSE_TRANSLATION_MM
                };
                match result {
                    Ok(t) => ok && t.row0() == (
                        row0.0 as int,
                        row0.1 as int,
                        row0.2 as int,
                        row0.3 as int,
                    ) && t.row1() == (row1.0 as int, row1.1 as int, row1.2 as int, row1.3 as int)
                        && t.row2() == (
                        row2.0 as int,
                        row2.1 as int,
                        row2.2 as int,
                        row2.3 as int,
                    ),
                    Err(LiDARError::InvalidTransform) => !ok,
                    Err(_) => false,
                }
            }),
    {
        if row0.0 < -MAX_POSE_LINEAR || row0.0 > MAX_POSE_LINEAR || row0.1 < -MAX_POSE_LINEAR
            || row0.1 > MAX_POSE_LINEAR || row0.2 < -MAX_POSE_LINEAR || row0.2 > MAX_POSE_LINEAR
            || row0.3 < -MAX_POSE_TRANSLATION_MM || row0.3 > MAX_POSE_TRANSLATION_MM || row1.0
            < -MAX_POSE_LINEAR || row1.0 > MAX_POSE_LINEAR || row1.1 < -MAX_POSE_LINEAR || row1.1
            > MAX_POSE_LINEAR || row1.2 < -MAX_POSE_LINEAR || row1.2 > MAX_POSE_LINEAR || row1.3
            < -MAX_POSE_TRANSLATION_MM || row1.3 > MAX_POSE_TRANSLATION_MM || row2.0
            < -MAX_POSE_LINEAR || row2.0 > MAX_POSE_LINEAR || row2.1 < -MAX_POSE_LINEAR || row2.1
            > MAX_POSE_LINEAR || row2.2 < -MAX_POSE_LINEAR || row2.2 > MAX_POSE_LINEAR || row2.3
            < -MAX_POSE_TRANSLATION_MM || row2.3 > MAX_POSE_TRANSLATION_MM {
            return Err(LiDARError::InvalidTransform);
        }
        Ok(
            PoseTransform {
                r00: row0.0,
                r01: row0.1,
                r02: row0.2,
                t0_mm: row0.3,
                r10: row1.0,
                r11: row1.1,
                r12: row1.2,
                t1_mm: row1.3,
                r20: row2.0,
                r21: row2.1,
                r22: row2.2,
                t2_mm: row2.3,
            },
        )
    }
}

/// One coordinate of the pose transform: the scaled linear combination of
/// the point's coordinates plus the translation.
pub open spec fn spec_pose_coord(row: (int, int, int, int), p: ScanPoint) -> int {
    tdiv_mil(row.0 * p.x_mm + row.1 * p.y_mm + row.2 * p.z_mm) + row.3
}

/// The transformed point.
pub open spec fn spec_transform(t: PoseTransform, p: ScanPoint) -> (int, int, int) {
    (spec_pose_coord(t.row0(), p), spec_pose_coord(t.row1(), p), spec_pose_coord(t.row2(), p))
}

/// Truncating conversion of a local offset in millimeters to microdegrees.
pub open spec fn spec_udeg_of_mm(v: int) -> int {
    if v >= 0 {
        (v * 10_000) / (MM_PER_UDEG_E4 as int)
    } else {
        -(((-v) * 10_000) / (MM_PER_UDEG_E4 as int))
    }
}

/// The distance of a transformed point from the frame origin, measured
/// through its synthetic location: northward offsets become latitude,
/// eastward offsets longitude, the vertical coordinate altitude.
pub open spec fn spec_local_magnitude_mm(q: (int, int, int)) -> int {
    spec_distance_mm(0, 0, 0, spec_udeg_of_mm(q.1), spec_udeg_of_mm(q.0), q.2)
}

/// Whether a raw scan point is accepted: its coordinates are within any
/// sensor's reach, and its transform lies within the scan range both
/// coordinate-wise and by the synthetic-location magnitude.
pub open spec fn spec_accepted(t: PoseTransform, scan_range_mm: int, p: ScanPoint) -> bool {
    let q = spec_transform(t, p);
    &&& -MAX_RAW_COORD_MM <= p.x_mm <= MAX_RAW_COORD_MM
    &&& -MAX_RAW_COORD_MM <= p.y_mm <= MAX_RAW_COORD_MM
    &&& -MAX_RAW_COORD_MM <= p.z_mm <= MAX_RAW_COORD_MM
    &&& -(MAX_LIDAR_RANGE_MM as int) <= q.0 <= MAX_LIDAR_RANGE_MM as int
    &&& -(MAX_LIDAR_RANGE_MM as int) <= q.1 <= MAX_LIDAR_RANGE_MM as int
    &&& -(MAX_LIDAR_RANGE_MM as int) <= q.2 <= MAX_LIDAR_RANGE_MM as int
    &&& MIN_LIDAR_RANGE_MM as int <= spec_local_magnitude_mm(q) <= scan_range_mm
}

/// The transformed accepted subset of a scan frame, in order.
pub open spec fn spec_retained(
    t: PoseTransform,
    scan_range_mm: int,
    points: Seq<ScanPoint>,
) -> Seq<ScanPoint> {
    points.filter(|p: ScanPoint| spec_accepted(t, scan_range_mm, p)).map_values(
        |p: ScanPoint|
            {
                let q = spec_transform(t, p);
                ScanPoint { x_mm: q.0 as i64, y_mm: q.1 as i64, z_mm: q.2 as i64 }
            },
    )
}

/// Decimal digit characters.
pub open spec fn spec_digit_char(d: int) -> char {
    if d == 0 {
        '0'
    } else if d == 1 {
        '1'
    } else if d == 2 {
        '2'
    } else if d == 3 {
        '3'
    } else if d == 4 {
        '4'
    } else if d == 5 {
        '5'
    } else if d == 6 {
        '6'
    } else if d == 7 {
        '7'
    } else if d == 8 {
        '8'
    } else {
        '9'
    }
}

/// The decimal digits of a non-negative number.
pub open spec fn spec_u64_digits(n: int) -> Seq<char>
    recommends
        n >= 0,
    decreases n,
{
    if n < 10 {
        seq![spec_digit_char(n)]
    } else {
        spec_u64_digits(n / 10) + seq![spec_digit_char(n % 10)]
    }
}

/// The synthetic identifier of the `n`-th environment point.
pub open spec fn spec_point_id(n: int) -> Seq<char> {
    seq!['p', 'o', 'i', 'n', 't', '_'] + spec_u64_digits(n)
}

/// A one-character string for a decimal digit.
fn digit_str(d: u64) -> (r: &'static str)
    requires
        d < 10,
    ensures
        r@ == seq![spec_digit_char(d as int)],
{
    proof {
        reveal_strlit("0");
        reveal_strlit("1");
        reveal_strlit("2");
        reveal_strlit("3");
        reveal_strlit("4");
        reveal_strlit("5");
        reveal_strlit("6");
        reveal_strlit("7");
        reveal_strlit("8");
        reveal_strlit("9");
    }
    let r: &'static str = match d {
        0 => "0",
        1 => "1",
        2 => "2",
        3 => "3",
        4 => "4",
        5 => "5",
        6 => "6",
        7 => "7",
        8 => "8",
        _ => "9",
    };
    proof {
        assert(r@ =~= seq![spec_digit_char(d as int)]);
    }
    r
}

/// Appends the decimal digits of `n`.
fn push_digits(s: &mut String, n: u64)
    ensures
        final(s)@ == old(s)@ + spec_u64_digits(n as int),
    decreases n,
{
    if n < 10 {
        s.append(digit_str(n));
    } else {
        push_digits(s, n / 10);
        s.append(digit_str(n % 10));
        proof {
            assert(s@ =~= old(s)@ + spec_u64_digits(n as int));
        }
    }
}

/// The synthetic identifier of the `n`-th environment point.
fn make_point_id(n: u64) -> (r: String)
    ensures
        r@ == spec_point_id(n as int),
{
    proof {
        reveal_strlit("point_");
    }
    let mut s = String::from_str("point_");
    proof {
        assert(s@ =~= seq!['p', 'o', 'i', 'n', 't', '_']);
    }
    push_digits(&mut s, n);
    s
}

impl PoseTransform {
    /// Applies the pose to a point.
    pub fn apply(&self, p: ScanPoint) -> (q: (i64, i64, i64))
        requires
            -MAX_RAW_COORD_MM <= p.x_mm <= MAX_RAW_COORD_MM,
            -MAX_RAW_COORD_MM <= p.y_mm <= MAX_RAW_COORD_MM,
            -MAX_RAW_COORD_MM <= p.z_mm <= MAX_RAW_COORD_MM,
        ensures
            (q.0 as int, q.1 as int, q.2 as int) == spec_transform(*self, p),
    {
        proof {
            use_type_invariant(*self);
        }
        let q0 = pose_coord(self.r00, self.r01, self.r02, self.t0_mm, p);
        let q1 = pose_coord(self.r10, self.r11, self.r12, self.t1_mm, p);
        let q2 = pose_coord(self.r20, self.r21, self.r22, self.t2_mm, p);
        (q0, q1, q2)
    }
}

/// One row of the pose applied to a point.
fn pose_coord(a: i64, b: i64, c: i64, t_mm: i64, p: ScanPoint) -> (q: i64)
    requires
        -MAX_POSE_LINEAR <= a <= MAX_POSE_LINEAR,
        -MAX_POSE_LINEAR <= b <= MAX_POSE_LINEAR,
        -MAX_POSE_LINEAR <= c <= MAX_POSE_LINEAR,
        -MAX_POSE_TRANSLATION_MM <= t_mm <= MAX_POSE_TRANSLATION_MM,
        -MAX_RAW_COORD_MM <= p.x_mm <= MAX_RAW_COORD_MM,
        -MAX_RAW_COORD_MM <= p.y_mm <= MAX_RAW_COORD_MM,
        -MAX_RAW_COORD_MM <= p.z_mm <= MAX_RAW_COORD_MM,
    ensures
        q as int == spec_pose_coord((a as int, b as int, c as int, t_mm as int), p),
{
    proof {
        lemma_pose_product_bound(a as int, p.x_mm as int);
        lemma_pose_product_bound(b as int, p.y_mm as int);
        lemma_pose_product_bound(c as int, p.z_mm as int);
    }
    let s: i128 = (a as i128) * (p.x_mm as i128) + (b as i128) * (p.y_mm as i128) + (c as i128)
        * (p.z_mm as i128);
    let m: i128 = if s >= 0 {
        s / 1_000_000
    } else {
        -((-s) / 1_000_000)
    };
    (m as i64) + t_mm
}

/// Each linear-by-coordinate product stays within `6e18` after summation.
proof fn lemma_pose_product_bound(a: int, x: int)
    by (nonlinear_arith)
    requires
        -2_000_000_000 <= a <= 2_000_000_000,
        -1_000_000_000 <= x <= 1_000_000_000,
    ensures
        -2_000_000_000_000_000_000 <= a * x <= 2_000_000_000_000_000_000,
{
}

/// Truncating conversion of a local offset in millimeters to microdegrees.
fn udeg_of_mm(v: i64) -> (r: i64)
    requires
        -1_000_000 <= v <= 1_000_000,
    ensures
        r as int == spec_udeg_of_mm(v as int),
{
    if v >= 0 {
        (v * 10_000) / MM_PER_UDEG_E4
    } else {
        -(((-v) * 10_000) / MM_PER_UDEG_E4)
    }
}

/// Small offsets convert to small angles: within the operating radius the
/// synthetic latitude and longitude stay near the frame origin.
pub proof fn lemma_udeg_small(v: int)
    requires
        -60_000 <= v <= 60_000,
    ensures
        -540 <= spec_udeg_of_mm(v) <= 540,
{
}

/// Checks a scan range or environment-query radius against
/// `[MIN_LIDAR_RANGE_MM, MAX_LIDAR_RANGE_MM]`.
pub fn validate_scan_range(range_mm: u64) -> (result: Result<(), LiDARError>)
    ensures
        match result {
            Ok(()) => MIN_LIDAR_RANGE_MM <= range_mm <= MAX_LIDAR_RANGE_MM,
            Err(LiDARError::InvalidScanRange { value_mm }) => value_mm == range_mm && !(
            MIN_LIDAR_RANGE_MM <= range_mm <= MAX_LIDAR_RANGE_MM),
            Err(_) => false,
        },
{
    if range_mm < MIN_LIDAR_RANGE_MM || range_mm > MAX_LIDAR_RANGE_MM {
        return Err(LiDARError::InvalidScanRange { value_mm: range_mm });
    }
    Ok(())
}

/// The accepted subset of a processed scan, with the processing duration
/// (measured by the caller) and the threshold in effect.
#[derive(Clone, Debug)]
pub struct EnvironmentMap {
    pub points: Vec<ScanPoint>,
    pub processing_time_ms: u64,
    pub confidence_threshold_ppk: u32,
}

/// The result of an environment query: the center's Cartesian projection,
/// the radius, the nearby entries, and the query duration (measured by the
/// caller).
#[derive(Clone, Debug)]
pub struct EnvironmentContext {
    pub center: crate::location::CartesianPoint,
    pub radius_mm: u64,
    pub points: Vec<(Location, String, u32)>,
    pub query_time_ms: u64,
}

/// Every element of the retained sequence is the transform of an accepted
/// point: its coordinates lie within the range box and its magnitude within
/// the scan range.
pub proof fn lemma_retained_element(
    t: PoseTransform,
    scan_range_mm: int,
    points: Seq<ScanPoint>,
    k: int,
)
    requires
        0 <= k < spec_retained(t, scan_range_mm, points).len(),
    ensures
        ({
            let q = spec_retained(t, scan_range_mm, points)[k];
            &&& -(MAX_LIDAR_RANGE_MM as int) <= q.x_mm <= MAX_LIDAR_RANGE_MM as int
            &&& -(MAX_LIDAR_RANGE_MM as int) <= q.y_mm <= MAX_LIDAR_RANGE_MM as int
            &&& -(MAX_LIDAR_RANGE_MM as int) <= q.z_mm <= MAX_LIDAR_RANGE_MM as int
            &&& MIN_LIDAR_RANGE_MM as int <= spec_local_magnitude_mm(
                (q.x_mm as int, q.y_mm as int, q.z_mm as int),
            ) <= scan_range_mm
        }),
{
    broadcast use vstd::seq_lib::group_filter_ensures;

    let filtered = points.filter(|p: ScanPoint| spec_accepted(t, scan_range_mm, p));
    let p = filtered[k];
    assert(spec_accepted(t, scan_range_mm, p));
    let qi = spec_transform(t, p);
    let q = spec_retained(t, scan_range_mm, points)[k];
    assert(q == ScanPoint { x_mm: qi.0 as i64, y_mm: qi.1 as i64, z_mm: qi.2 as i64 });
}

/// The processor: the environment index, the configured range and
/// confidence threshold, the pose, a monotonic identifier counter, and
/// performance counters.
pub struct LiDARProcessor {
    environment_index: SpatialIndex,
    scan_range_mm: u64,
    confidence_threshold_ppk: u32,
    transform: PoseTransform,
    next_point_id: u64,
    points_processed: u64,
    confidence_samples: Vec<u32>,
}

impl LiDARProcessor {
    /// The environment index.
    pub closed spec fn env(self) -> SpatialIndex {
        self.environment_index
    }

    /// The configured scan range, in millimeters.
    pub closed spec fn scan_range_spec(self) -> u64 {
        self.scan_range_mm
    }

    /// The configured confidence threshold, in thousandths.
    pub closed spec fn conf_spec(self) -> u32 {
        self.confidence_threshold_ppk
    }

    /// The configured pose transform.
    pub closed spec fn transform_spec(self) -> PoseTransform {
        self.transform
    }

    /// The next synthetic identifier number.
    pub closed spec fn next_id_spec(self) -> u64 {
        self.next_point_id
    }

    /// The monotonic count of points processed.
    pub closed spec fn points_processed_spec(self) -> u64 {
        self.points_processed
    }

    /// Well-formedness: a valid device-local environment index and
    /// configuration within the supported ranges.
    pub open spec fn inv(self) -> bool {
        &&& self.env().inv()
        &&& self.env().frame_spec() == IndexFrame::DeviceLocal
        &&& MIN_LIDAR_RANGE_MM <= self.scan_range_spec() <= MAX_LIDAR_RANGE_MM
        &&& MIN_CONFIDENCE_THRESHOLD_PPK <= self.conf_spec() <= 1000
    }

    /// The next synthetic identifier number.
    pub fn next_id(&self) -> (n: u64)
        ensures
            n == self.next_id_spec(),
    {
        self.next_point_id
    }

    /// Creates a processor over a device-local environment index.  The scan
    /// range defaults to [`MAX_LIDAR_RANGE_MM`], the confidence threshold to
    /// [`MIN_CONFIDENCE_THRESHOLD_PPK`], the pose to the identity.
    pub fn new(
        environment_index: SpatialIndex,
        scan_range_mm: Option<u64>,
        confidence_threshold_ppk: Option<u32>,
        transform: Option<PoseTransform>,
    ) -> (result: Result<LiDARProcessor, LiDARError>)
        requires
            environment_index.inv(),
            environment_index.frame_spec() == IndexFrame::DeviceLocal,
        ensures
            ({
                let range = match scan_range_mm {
                    Some(r) => r,
                    None => MAX_LIDAR_RANGE_MM,
                };
                let conf = match confidence_threshold_ppk {
                    Some(c) => c,
                    None => MIN_CONFIDENCE_THRESHOLD_PPK,
                };
                match result {
                    Ok(p) => {
                        &&& p.inv()
                        &&& p.env() == environment_index
                        &&& p.scan_range_spec() == range
                        &&& p.conf_spec() == conf
                        &&& p.next_id_spec() == 0
                        &&& p.points_processed_spec() == 0
                        &&& (transform is Some ==> p.transform_spec() == transform->0)
                    },
                    Err(LiDARError::InvalidScanRange { value_mm }) => value_mm == range && !(
                    MIN_LIDAR_RANGE_MM <= range <= MAX_LIDAR_RANGE_MM),
                    Err(LiDARError::InvalidConfidence { value_ppk }) => {
                        &&& value_ppk == conf
                        &&& MIN_LIDAR_RANGE_MM <= range <= MAX_LIDAR_RANGE_MM
                        &&& !(MIN_CONFIDENCE_THRESHOLD_PPK <= conf <= 1000)
                    },
                    Err(_) => false,
                }
            }),
    {
        let range: u64 = match scan_range_mm {
            Some(r) => r,
            None => MAX_LIDAR_RANGE_MM,
        };
        match validate_scan_range(range) {
            Ok(()) => (),
            Err(e) => {
                return Err(e);
            },
        }
        let conf: u32 = match confidence_threshold_ppk {
            Some(c) => c,
            None => MIN_CONFIDENCE_THRESHOLD_PPK,
        };
        if conf < MIN_CONFIDENCE_THRESHOLD_PPK || conf > 1000 {
            return Err(LiDARError::InvalidConfidence { value_ppk: conf });
        }
        let t: PoseTransform = match transform {
            Some(t) => t,
            None => PoseTransform::identity(),
        };
        Ok(
            LiDARProcessor {
                environment_index,
                scan_range_mm: range,
                confidence_threshold_ppk: conf,
                transform: t,
                next_point_id: 0,
                points_processed: 0,
                confidence_samples: Vec::new(),
            },
        )
    }

    /// Processes a scan frame: applies the pose, keeps the points whose
    /// synthetic-location magnitude lies in `[MIN_LIDAR_RANGE_MM, scan
    /// range]`, and records each survivor in the environment index under
    /// its synthetic location and a fresh `point_<n>` identifier, in frame
    /// order.  An oversized frame is rejected whole and changes nothing.
    #[verifier::rlimit(100)]
    pub fn process_point_cloud(&mut self, points: Vec<ScanPoint>) -> (result: Result<
        EnvironmentMap,
        LiDARError,
    >)
        requires
            old(self).inv(),
            old(self).next_id_spec() + points@.len() <= u64::MAX,
        ensures
            final(self).inv(),
            final(self).scan_range_spec() == old(self).scan_range_spec(),
            final(self).conf_spec() == old(self).conf_spec(),
            final(self).transform_spec() == old(self).transform_spec(),
            match result {
                Ok(m) => {
                    let acc = spec_retained(
                        old(self).transform_spec(),
                        old(self).scan_range_spec() as int,
                        points@,
                    );
                    let old_n = old(self).env().entries_view().len();
                    &&& points@.len() <= MAX_POINTS_PER_SCAN
                    &&& m.points@ == acc
                    &&& m.confidence_threshold_ppk == old(self).conf_spec()
                    &&& final(self).env().entries_view().len() == old_n + acc.len()
                    &&& forall|i: int|
                        0 <= i < old_n ==> final(self).env().entries_view()[i] == old(
                            self,
                        ).env().entries_view()[i]
                    &&& forall|k: int|
                        #![trigger acc[k]]
                        0 <= k < acc.len() ==> {
                            let e = final(self).env().entries_view()[old_n + k];
                            &&& e.0.lat() == spec_udeg_of_mm(acc[k].y_mm as int)
                            &&& e.0.lon() == spec_udeg_of_mm(acc[k].x_mm as int)
                            &&& e.0.alt() == acc[k].z_mm as int
                            &&& e.0.conf() == old(self).conf_spec()
                            &&& e.1 == spec_point_id(old(self).next_id_spec() + k)
                            &&& e.2 == 1000u32
                        }
                    &&& final(self).next_id_spec() == old(self).next_id_spec() + acc.len()
                },
                Err(LiDARError::ExcessivePointCloud { size }) => size == points@.len()
                    && points@.len() > MAX_POINTS_PER_SCAN && *final(self) == *old(self),
                Err(_) => false,
            },
    {
        if points.len() > MAX_POINTS_PER_SCAN {
            return Err(LiDARError::ExcessivePointCloud { size: points.len() });
        }
        let t: PoseTransform = self.transform;
        let range: u64 = self.scan_range_mm;
        let mut processed: Vec<ScanPoint> = Vec::new();
        let mut i: usize = 0;
        while i < points.len()
            invariant
                0 <= i <= points@.len(),
                MIN_LIDAR_RANGE_MM <= range <= MAX_LIDAR_RANGE_MM,
                processed@ == spec_retained(t, range as int, points@.subrange(0, i as int)),
            decreases points@.len() - i,
        {
            let p = points[i];
            let ghost pre = processed@;
            if p.x_mm >= -MAX_RAW_COORD_MM && p.x_mm <= MAX_RAW_COORD_MM && p.y_mm
                >= -MAX_RAW_COORD_MM && p.y_mm <= MAX_RAW_COORD_MM && p.z_mm >= -MAX_RAW_COORD_MM
                && p.z_mm <= MAX_RAW_COORD_MM {
                let q = t.apply(p);
                let lim: i64 = MAX_LIDAR_RANGE_MM as i64;
                if q.0 >= -lim && q.0 <= lim && q.1 >= -lim && q.1 <= lim && q.2 >= -lim && q.2
                    <= lim {
                    let lat = udeg_of_mm(q.1);
                    let lon = udeg_of_mm(q.0);
                    let d = crate::geo::distance_mm_raw(0, 0, 0, lat, lon, q.2);
                    if d >= MIN_LIDAR_RANGE_MM && d <= range {
                        processed.push(ScanPoint { x_mm: q.0, y_mm: q.1, z_mm: q.2 });
                        proof {
                            assert(spec_accepted(t, range as int, p));
                        }
                    } else {
                        proof {
                            assert(!spec_accepted(t, range as int, p));
                        }
                    }
                } else {
                    proof {
                        assert(!spec_accepted(t, range as int, p));
                    }
                }
            } else {
                proof {
                    assert(!spec_accepted(t, range as int, p));
                }
            }
            proof {
                reveal(Seq::filter);
                let pred = |pp: ScanPoint| spec_accepted(t, range as int, pp);
                let sub = points@.subrange(0, i as int);
                let sub1 = points@.subrange(0, i + 1);
                assert(sub1.drop_last() =~= sub);
                assert(sub1.last() == p);
                if spec_accepted(t, range as int, p) {
                    assert(sub1.filter(pred) == sub.filter(pred).push(p));
                    assert(processed@ =~= spec_retained(t, range as int, sub1));
                } else {
                    assert(sub1.filter(pred) == sub.filter(pred));
                    assert(processed@ =~= spec_retained(t, range as int, sub1));
                }
            }
            i += 1;
        }
        proof {
            assert(points@.subrange(0, points@.len() as int) =~= points@);
        }
        let ghost acc = processed@;
        let ghost old_env_view = self.environment_index.entries_view();
        let ghost old_next = self.next_point_id as int;
        let ghost conf0 = self.confidence_threshold_ppk;
        proof {
            broadcast use vstd::seq_lib::group_filter_ensures;

            assert(acc.len() <= points@.len());
        }
        let mut k: usize = 0;
        while k < processed.len()
            invariant
                0 <= k <= processed@.len(),
                processed@ == acc,
                acc == spec_retained(t, range as int, points@),
                acc.len() <= points@.len(),
                old_next + points@.len() <= u64::MAX,
                self.inv(),
                self.transform == t,
                self.scan_range_mm == range,
                self.confidence_threshold_ppk == conf0,
                MIN_LIDAR_RANGE_MM <= range <= MAX_LIDAR_RANGE_MM,
                self.next_point_id as int == old_next + k,
                self.environment_index.entries_view().len() == old_env_view.len() + k,
                forall|m: int|
                    0 <= m < old_env_view.len() ==> self.environment_index.entries_view()[m]
                        == old_env_view[m],
                forall|m: int|
                    #![trigger acc[m]]
                    0 <= m < k ==> {
                        let e = self.environment_index.entries_view()[old_env_view.len() + m];
                        &&& e.0.lat() == spec_udeg_of_mm(acc[m].y_mm as int)
                        &&& e.0.lon() == spec_udeg_of_mm(acc[m].x_mm as int)
                        &&& e.0.alt() == acc[m].z_mm as int
                        &&& e.0.conf() == conf0
                        &&& e.1 == spec_point_id(old_next + m)
                        &&& e.2 == 1000u32
                    },
            decreases processed@.len() - k,
        {
            let q = processed[k];
            proof {
                lemma_retained_element(t, range as int, points@, k as int);
                lemma_udeg_small(q.y_mm as int);
                lemma_udeg_small(q.x_mm as int);
            }
            let lat = udeg_of_mm(q.y_mm);
            let lon = udeg_of_mm(q.x_mm);
            let loc = match Location::new(lat, lon, q.z_mm, 1000, Some(
                self.confidence_threshold_ppk,
            )) {
                Ok(l) => l,
                Err(_) => {
                    proof {
                        assert(false);
                    }
                    vstd::pervasive::unreached()
                },
            };
            let id = make_point_id(self.next_point_id);
            let ghost gid = id@;
            let ghost pre_view = self.environment_index.entries_view();
            self.next_point_id = self.next_point_id + 1;
            let r = self.environment_index.insert(loc, id);
            proof {
                crate::location::lemma_origin_fields();
                assert(spec_distance_loc(crate::location::origin_location(), loc)
                    == spec_local_magnitude_mm((q.x_mm as int, q.y_mm as int, q.z_mm as int)));
            }
            match r {
                Ok(()) => (),
                Err(_) => {
                    proof {
                        assert(false);
                    }
                    vstd::pervasive::unreached()
                },
            }
            proof {
                assert(self.environment_index.entries_view() == pre_view.push(
                    (loc, gid, 1000u32),
                ));
                assert forall|m: int| #![trigger acc[m]] 0 <= m < k + 1 implies {
                    let e = self.environment_index.entries_view()[old_env_view.len() + m];
                    &&& e.0.lat() == spec_udeg_of_mm(acc[m].y_mm as int)
                    &&& e.0.lon() == spec_udeg_of_mm(acc[m].x_mm as int)
                    &&& e.0.alt() == acc[m].z_mm as int
                    &&& e.0.conf() == conf0
                    &&& e.1 == spec_point_id(old_next + m)
                    &&& e.2 == 1000u32
                } by {
                    if m < k {
                        assert(self.environment_index.entries_view()[old_env_view.len() + m]
                            == pre_view[old_env_view.len() + m]);
                    } else {
                        assert(self.environment_index.entries_view()[old_env_view.len() + m] == (
                            loc,
                            gid,
                            1000u32,
                        ));
                    }
                }
            }
            k += 1;
        }
        let n_acc: usize = processed.len();
        if self.points_processed <= u64::MAX - (n_acc as u64) {
            self.points_processed = self.points_processed + (n_acc as u64);
        } else {
            self.points_processed = u64::MAX;
        }
        if self.confidence_samples.len() >= 64 {
            self.confidence_samples.remove(0);
        }
        self.confidence_samples.push(self.confidence_threshold_ppk);
        Ok(
            EnvironmentMap {
                points: processed,
                processing_time_ms: 0,
                confidence_threshold_ppk: self.confidence_threshold_ppk,
            },
        )
    }

    /// Queries the environment index around `center`.  The radius is
    /// validated against the scan-range bounds; the entries and their
    /// guarantees come from [`SpatialIndex::query_radius`].
    pub fn query_environment(&self, center: &Location, radius_mm: u64) -> (result: Result<
        EnvironmentContext,
        LiDARError,
    >)
        requires
            self.inv(),
        ensures
            match result {
                Ok(ctx) => {
                    &&& MIN_LIDAR_RANGE_MM <= radius_mm <= MAX_LIDAR_RANGE_MM
                    &&& ctx.radius_mm == radius_mm
                    &&& self.env().spec_tree_hits(*center, radius_mm as int)
                        <= crate::spatial_index::MAX_POINTS_PER_QUERY
                    &&& forall|j: int|
                        #![trigger ctx.points@[j]]
                        0 <= j < ctx.points@.len() ==> self.env().reports_entry(
                            ctx.points@[j],
                            *center,
                            radius_mm as int,
                        )
                    &&& forall|i: int|
                        #![auto]
                        0 <= i < self.env().entries_view().len() && self.env().spec_hit(
                            *center,
                            radius_mm as int,
                            i,
                        ) && spec_distance_loc(*center, self.env().entries_view()[i].0)
                            <= radius_mm ==> self.env().entry_reported(
                            i,
                            *center,
                            radius_mm as int,
                            ctx.points@,
                        )
                },
                Err(LiDARError::InvalidScanRange { value_mm }) => value_mm == radius_mm && !(
                MIN_LIDAR_RANGE_MM <= radius_mm <= MAX_LIDAR_RANGE_MM),
                Err(LiDARError::SpatialIndex(SpatialIndexError::QueryLimit { count })) => {
                    &&& MIN_LIDAR_RANGE_MM <= radius_mm <= MAX_LIDAR_RANGE_MM
                    &&& count == self.env().spec_tree_hits(*center, radius_mm as int)
                    &&& count > crate::spatial_index::MAX_POINTS_PER_QUERY
                },
                Err(_) => false,
            },
    {
        match validate_scan_range(radius_mm) {
            Ok(()) => (),
            Err(e) => {
                return Err(e);
            },
        }
        let points = match self.environment_index.query_radius(*center, radius_mm) {
            Ok(v) => v,
            Err(e) => {
                return Err(LiDARError::SpatialIndex(e));
            },
        };
        let center_cart = center.to_point3();
        Ok(EnvironmentContext { center: center_cart, radius_mm, points, query_time_ms: 0 })
    }
}

} // verus!

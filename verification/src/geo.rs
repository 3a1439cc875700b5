//! Fixed-point spherical geometry.
//!
//! Angles are measured in microdegrees (1 degree = 1_000_000 microdegrees),
//! lengths in millimeters, and trigonometric values in billionths.  The sine
//! is evaluated with a linear rule near zero and with Bhaskara's rational
//! approximation elsewhere; within the engine's 50 m operating radius the
//! error of the composed distance stays well below the 1 cm precision
//! target.  Surface distances follow the haversine composition on a sphere
//! of radius 6 371 000 m, with the arcsine taken in its small-angle form;
//! this is faithful within the operating radius and is not intended for
//! wide-area geodesy.

use vstd::prelude::*;

verus! {

/// Earth radius in millimeters.
pub const EARTH_RADIUS_MM: u64 = 6_371_000_000;

/// Largest magnitude of a latitude, in microdegrees.
pub const MAX_LAT_UDEG: i64 = 90_000_000;

/// Largest magnitude of a longitude, in microdegrees.
pub const MAX_LON_UDEG: i64 = 180_000_000;

/// Below this angle the sine is evaluated linearly, in microdegrees.
pub const SIN_LINEAR_LIMIT_UDEG: i64 = 2_000_000;

/// Billionths of a radian per microdegree, the slope of the linear rule.
pub const NANO_RAD_PER_UDEG: i64 = 17_453_293;

/// `r` is the integer square root of `n`.
pub open spec fn is_sqrt(r: int, n: int) -> bool {
    0 <= r && r * r <= n && n < (r + 1) * (r + 1)
}

/// The integer square root of `n`, as a spec-level value.
pub open spec fn spec_isqrt(n: int) -> int {
    choose|r: int| is_sqrt(r, n)
}

pub proof fn lemma_isqrt_unique(r1: int, r2: int, n: int)
    by (nonlinear_arith)
    requires
        is_sqrt(r1, n),
        is_sqrt(r2, n),
    ensures
        r1 == r2,
{
}

/// From any witness, the spec-level square root is pinned down.
pub proof fn lemma_isqrt_of_witness(r: int, n: int)
    requires
        is_sqrt(r, n),
    ensures
        spec_isqrt(n) == r,
{
    assert(is_sqrt(spec_isqrt(n), n)) by {
        assert(exists|x: int| is_sqrt(x, n));
    }
    lemma_isqrt_unique(spec_isqrt(n), r, n);
}

pub proof fn lemma_isqrt_zero()
    ensures
        spec_isqrt(0) == 0,
{
    assert(is_sqrt(0, 0));
    lemma_isqrt_of_witness(0, 0);
}

/// Every non-negative integer has an integer square root.
pub proof fn lemma_isqrt_exists_for(n: int)
    requires
        0 <= n,
    ensures
        is_sqrt(spec_isqrt(n), n),
    decreases n,
{
    if n == 0 {
        assert(is_sqrt(0, 0));
    } else {
        lemma_isqrt_exists_for(n - 1);
        let r = spec_isqrt(n - 1);
        assert(is_sqrt(r, n - 1));
        if n < (r + 1) * (r + 1) {
            assert(is_sqrt(r, n));
        } else {
            assert(n == (r + 1) * (r + 1));
            assert(is_sqrt(r + 1, n)) by (nonlinear_arith)
                requires
                    n == (r + 1) * (r + 1),
                    0 <= r,
            ;
        }
    }
    assert(exists|x: int| is_sqrt(x, n));
    lemma_isqrt_unique(spec_isqrt(n), choose|x: int| is_sqrt(x, n), n);
}

/// Integer square root by binary search.
pub fn isqrt_u128(n: u128) -> (r: u64)
    ensures
        is_sqrt(r as int, n as int),
        r as int == spec_isqrt(n as int),
{
    let mut lo: u64 = 0;
    let mut hi: u64 = u64::MAX;
    while lo < hi
        invariant
            (lo as int) * (lo as int) <= n as int,
            (n as int) < (hi as int + 1) * (hi as int + 1),
            lo <= hi,
        decreases hi - lo,
    {
        let mid: u64 = lo + (hi - lo) / 2 + 1;
        proof {
            assert((mid as int) * (mid as int) <= u128::MAX as int) by (nonlinear_arith)
                requires
                    0 <= mid as int <= u64::MAX as int,
            ;
        }
        if (mid as u128) * (mid as u128) <= n {
            lo = mid;
        } else {
            hi = mid - 1;
        }
    }
    proof {
        lemma_isqrt_of_witness(lo as int, n as int);
    }
    lo
}

/// Absolute value as a spec-level function.
pub open spec fn abs_int(x: int) -> int {
    if x >= 0 {
        x
    } else {
        -x
    }
}

/// Sine of a non-negative angle (microdegrees), in billionths: linear near
/// zero, Bhaskara's approximation up to half a turn.
pub open spec fn spec_sin_pos_nano(d: int) -> int
    recommends
        0 <= d <= MAX_LON_UDEG,
{
    if d <= SIN_LINEAR_LIMIT_UDEG {
        (d * NANO_RAD_PER_UDEG) / 1_000_000
    } else {
        (4_000_000_000 * (d * (180_000_000 - d))) / (40_500_000_000_000_000 - d * (180_000_000
            - d))
    }
}

/// Sine of half a non-negative angle (microdegrees), in billionths; near
/// zero the half-microdegree is kept by halving the slope instead of the
/// angle.
pub open spec fn spec_sin_half_nano(d: int) -> int
    recommends
        0 <= d <= 2 * MAX_LON_UDEG,
{
    if d <= 2 * SIN_LINEAR_LIMIT_UDEG {
        (d * NANO_RAD_PER_UDEG) / 2_000_000
    } else {
        spec_sin_pos_nano(d / 2)
    }
}

/// Sine of a signed angle (microdegrees), in billionths.
pub open spec fn spec_sin_nano(d: int) -> int
    recommends
        abs_int(d) <= MAX_LON_UDEG,
{
    if d >= 0 {
        spec_sin_pos_nano(d)
    } else {
        -spec_sin_pos_nano(-d)
    }
}

/// Cosine of a signed angle (microdegrees), in billionths.
pub open spec fn spec_cos_nano(d: int) -> int
    recommends
        abs_int(d) <= MAX_LON_UDEG,
{
    spec_sin_nano(90_000_000 - abs_int(d))
}

pub proof fn lemma_sin_pos_bounds(d: int)
    requires
        0 <= d <= MAX_LON_UDEG,
    ensures
        0 <= spec_sin_pos_nano(d) <= 1_000_000_000,
{
    if d <= SIN_LINEAR_LIMIT_UDEG {
        assert(d * NANO_RAD_PER_UDEG <= 2_000_000 * NANO_RAD_PER_UDEG) by (nonlinear_arith)
            requires
                0 <= d <= 2_000_000,
        ;
        assert(0 <= (d * NANO_RAD_PER_UDEG) / 1_000_000 <= 1_000_000_000);
    } else {
        let p = d * (180_000_000 - d);
        assert(0 <= p <= 8_100_000_000_000_000) by (nonlinear_arith)
            requires
                2_000_000 < d <= 180_000_000,
                p == d * (180_000_000 - d),
        ;
        let den = 40_500_000_000_000_000 - p;
        assert(den >= 32_400_000_000_000_000);
        assert(0 <= (4_000_000_000 * p) / den <= 1_000_000_000) by (nonlinear_arith)
            requires
                0 <= p <= 8_100_000_000_000_000,
                den == 40_500_000_000_000_000 - p,
        ;
    }
}

pub proof fn lemma_sin_half_bounds(d: int)
    requires
        0 <= d <= 2 * MAX_LON_UDEG,
    ensures
        0 <= spec_sin_half_nano(d) <= 1_000_000_000,
{
    if d <= 2 * SIN_LINEAR_LIMIT_UDEG {
        assert(d * NANO_RAD_PER_UDEG <= 4_000_000 * NANO_RAD_PER_UDEG) by (nonlinear_arith)
            requires
                0 <= d <= 4_000_000,
        ;
        assert(0 <= (d * NANO_RAD_PER_UDEG) / 2_000_000 <= 1_000_000_000);
    } else {
        lemma_sin_pos_bounds(d / 2);
    }
}

pub proof fn lemma_sin_bounds(d: int)
    requires
        abs_int(d) <= MAX_LON_UDEG,
    ensures
        -1_000_000_000 <= spec_sin_nano(d) <= 1_000_000_000,
{
    if d >= 0 {
        lemma_sin_pos_bounds(d);
    } else {
        lemma_sin_pos_bounds(-d);
    }
}

pub proof fn lemma_cos_bounds(d: int)
    requires
        abs_int(d) <= MAX_LON_UDEG,
    ensures
        -1_000_000_000 <= spec_cos_nano(d) <= 1_000_000_000,
        abs_int(d) <= MAX_LAT_UDEG ==> 0 <= spec_cos_nano(d),
{
    lemma_sin_bounds(90_000_000 - abs_int(d));
    if abs_int(d) <= MAX_LAT_UDEG {
        lemma_sin_pos_bounds(90_000_000 - abs_int(d));
    }
}

/// Sine of a non-negative angle in microdegrees, in billionths.
pub fn sin_pos_nano(d: i64) -> (r: i64)
    requires
        0 <= d <= MAX_LON_UDEG,
    ensures
        r == spec_sin_pos_nano(d as int),
        0 <= r <= 1_000_000_000,
{
    proof {
        lemma_sin_pos_bounds(d as int);
    }
    if d <= SIN_LINEAR_LIMIT_UDEG {
        assert(d * NANO_RAD_PER_UDEG <= 2_000_000 * NANO_RAD_PER_UDEG) by (nonlinear_arith)
            requires
                0 <= d <= 2_000_000,
        ;
        (d * NANO_RAD_PER_UDEG) / 1_000_000
    } else {
        let q: i64 = 180_000_000 - d;
        assert(0 <= d * q <= 8_100_000_000_000_000) by (nonlinear_arith)
            requires
                2_000_000 < d <= 180_000_000,
                q == 180_000_000 - d,
        ;
        let p: i64 = d * q;
        let num: i128 = 4_000_000_000i128 * (p as i128);
        let den: i128 = 40_500_000_000_000_000i128 - (p as i128);
        (num / den) as i64
    }
}

/// Sine of half a non-negative angle in microdegrees, in billionths.
pub fn sin_half_nano(d: i64) -> (r: i64)
    requires
        0 <= d <= 2 * MAX_LON_UDEG,
    ensures
        r == spec_sin_half_nano(d as int),
        0 <= r <= 1_000_000_000,
{
    proof {
        lemma_sin_half_bounds(d as int);
    }
    if d <= 2 * SIN_LINEAR_LIMIT_UDEG {
        assert(d * NANO_RAD_PER_UDEG <= 4_000_000 * NANO_RAD_PER_UDEG) by (nonlinear_arith)
            requires
                0 <= d <= 4_000_000,
        ;
        (d * NANO_RAD_PER_UDEG) / 2_000_000
    } else {
        sin_pos_nano(d / 2)
    }
}

/// Sine of a signed angle in microdegrees, in billionths.
pub fn sin_nano(d: i64) -> (r: i64)
    requires
        -MAX_LON_UDEG <= d <= MAX_LON_UDEG,
    ensures
        r == spec_sin_nano(d as int),
        -1_000_000_000 <= r <= 1_000_000_000,
{
    if d >= 0 {
        sin_pos_nano(d)
    } else {
        let s: i64 = sin_pos_nano(-d);
        -s
    }
}

/// Cosine of a signed angle in microdegrees, in billionths.
pub fn cos_nano(d: i64) -> (r: i64)
    requires
        -MAX_LON_UDEG <= d <= MAX_LON_UDEG,
    ensures
        r == spec_cos_nano(d as int),
        -1_000_000_000 <= r <= 1_000_000_000,
        -MAX_LAT_UDEG <= d <= MAX_LAT_UDEG ==> 0 <= r,
{
    let a: i64 = if d >= 0 {
        d
    } else {
        -d
    };
    proof {
        if a <= MAX_LAT_UDEG {
            lemma_sin_pos_bounds(90_000_000 - a as int);
        }
    }
    sin_nano(90_000_000 - a)
}

/// Surface distance in millimeters between two coordinates given in
/// microdegrees: haversine on the sphere, with the arcsine taken linearly.
pub open spec fn spec_haversine_mm(lat1: int, lon1: int, lat2: int, lon2: int) -> int
    recommends
        abs_int(lat1) <= MAX_LAT_UDEG,
        abs_int(lat2) <= MAX_LAT_UDEG,
        abs_int(lon1) <= MAX_LON_UDEG,
        abs_int(lon2) <= MAX_LON_UDEG,
{
    let s1 = spec_sin_half_nano(abs_int(lat1 - lat2));
    let s2 = spec_sin_half_nano(abs_int(lon1 - lon2));
    let c1 = spec_cos_nano(lat1);
    let c2 = spec_cos_nano(lat2);
    let a = s1 * s1 + (c1 * c2 * s2 * s2) / 1_000_000_000_000_000_000;
    (2 * 6_371_000_000 * spec_isqrt(a)) / 1_000_000_000
}

pub proof fn lemma_haversine_term_bounds(s1: int, s2: int, c1: int, c2: int)
    by (nonlinear_arith)
    requires
        0 <= s1 <= 1_000_000_000,
        0 <= s2 <= 1_000_000_000,
        0 <= c1 <= 1_000_000_000,
        0 <= c2 <= 1_000_000_000,
    ensures
        0 <= s1 * s1 <= 1_000_000_000_000_000_000,
        0 <= c1 * c2 * s2 * s2
            <= 1_000_000_000_000_000_000_000_000_000_000_000_000,
{
}

pub proof fn lemma_haversine_bounds(lat1: int, lon1: int, lat2: int, lon2: int)
    requires
        abs_int(lat1) <= MAX_LAT_UDEG,
        abs_int(lat2) <= MAX_LAT_UDEG,
        abs_int(lon1) <= MAX_LON_UDEG,
        abs_int(lon2) <= MAX_LON_UDEG,
    ensures
        0 <= spec_haversine_mm(lat1, lon1, lat2, lon2) <= 18_022_000_000,
{
    let hl = abs_int(lat1 - lat2);
    let hn = abs_int(lon1 - lon2);
    lemma_sin_half_bounds(hl);
    lemma_sin_half_bounds(hn);
    lemma_cos_bounds(lat1);
    lemma_cos_bounds(lat2);
    let s1 = spec_sin_half_nano(hl);
    let s2 = spec_sin_half_nano(hn);
    let c1 = spec_cos_nano(lat1);
    let c2 = spec_cos_nano(lat2);
    lemma_haversine_term_bounds(s1, s2, c1, c2);
    let a = s1 * s1 + (c1 * c2 * s2 * s2) / 1_000_000_000_000_000_000;
    assert(0 <= a <= 2_000_000_000_000_000_000);
    assert(is_sqrt(spec_isqrt(a), a)) by {
        lemma_isqrt_exists_for(a);
    }
    let r = spec_isqrt(a);
    assert(0 <= r <= 1_414_213_563) by (nonlinear_arith)
        requires
            is_sqrt(r, a),
            a <= 2_000_000_000_000_000_000,
    ;
    assert(0 <= 2 * 6_371_000_000 * r <= 18_021_949_423_746_000_000) by (nonlinear_arith)
        requires
            0 <= r <= 1_414_213_563,
    ;
}

/// Surface distance in millimeters between two points given as
/// (latitude, longitude) pairs in microdegrees.
pub fn haversine_distance(lat1: i64, lon1: i64, lat2: i64, lon2: i64) -> (r: u64)
    requires
        -MAX_LAT_UDEG <= lat1 <= MAX_LAT_UDEG,
        -MAX_LAT_UDEG <= lat2 <= MAX_LAT_UDEG,
        -MAX_LON_UDEG <= lon1 <= MAX_LON_UDEG,
        -MAX_LON_UDEG <= lon2 <= MAX_LON_UDEG,
    ensures
        r as int == spec_haversine_mm(lat1 as int, lon1 as int, lat2 as int, lon2 as int),
        r <= 18_022_000_000,
{
    let dl: i64 = if lat1 >= lat2 {
        lat1 - lat2
    } else {
        lat2 - lat1
    };
    let dn: i64 = if lon1 >= lon2 {
        lon1 - lon2
    } else {
        lon2 - lon1
    };
    let s1: i64 = sin_half_nano(dl);
    let s2: i64 = sin_half_nano(dn);
    let c1: i64 = cos_nano(lat1);
    let c2: i64 = cos_nano(lat2);
    proof {
        lemma_haversine_term_bounds(s1 as int, s2 as int, c1 as int, c2 as int);
    }
    let ss: u128 = (s1 as u128) * (s1 as u128);
    proof {
        assert((c1 as int) * (c2 as int) <= 1_000_000_000_000_000_000) by (nonlinear_arith)
            requires
                0 <= c1 as int <= 1_000_000_000,
                0 <= c2 as int <= 1_000_000_000,
        ;
    }
    let t1: u128 = (c1 as u128) * (c2 as u128);
    proof {
        assert((t1 as int) * (s2 as int) <= 1_000_000_000_000_000_000_000_000_000) by (
        nonlinear_arith)
            requires
                0 <= t1 as int <= 1_000_000_000_000_000_000,
                0 <= s2 as int <= 1_000_000_000,
        ;
    }
    let t2: u128 = t1 * (s2 as u128);
    proof {
        assert((t2 as int) * (s2 as int)
            <= 1_000_000_000_000_000_000_000_000_000_000_000_000) by (nonlinear_arith)
            requires
                0 <= t2 as int <= 1_000_000_000_000_000_000_000_000_000,
                0 <= s2 as int <= 1_000_000_000,
        ;
    }
    let cc: u128 = t2 * (s2 as u128);
    let a: u128 = ss + cc / 1_000_000_000_000_000_000;
    let root: u64 = isqrt_u128(a);
    proof {
        let ai = a as int;
        let ri = spec_isqrt(ai);
        assert(0 <= ri <= 1_414_213_563) by (nonlinear_arith)
            requires
                is_sqrt(ri, ai),
                ai <= 2_000_000_000_000_000_000,
        ;
        assert((c1 as int) * (c2 as int) * (s2 as int) * (s2 as int) == cc as int) by (
        nonlinear_arith)
            requires
                t1 as int == (c1 as int) * (c2 as int),
                t2 as int == (t1 as int) * (s2 as int),
                cc as int == (t2 as int) * (s2 as int),
        ;
        assert(2u128 * 6_371_000_000u128 * (root as u128) <= 18_021_949_423_746_000_000) by (
        nonlinear_arith)
            requires
                0 <= root as int <= 1_414_213_563,
        ;
    }
    let d: u128 = (2u128 * 6_371_000_000u128 * (root as u128)) / 1_000_000_000u128;
    proof {
        lemma_haversine_bounds(lat1 as int, lon1 as int, lat2 as int, lon2 as int);
    }
    d as u64
}

/// Distance in millimeters between two located points: haversine surface
/// distance composed with the altitude difference by the Pythagorean rule.
pub open spec fn spec_distance_mm(
    lat1: int,
    lon1: int,
    alt1: int,
    lat2: int,
    lon2: int,
    alt2: int,
) -> int
    recommends
        abs_int(lat1) <= MAX_LAT_UDEG,
        abs_int(lat2) <= MAX_LAT_UDEG,
        abs_int(lon1) <= MAX_LON_UDEG,
        abs_int(lon2) <= MAX_LON_UDEG,
{
    let h = spec_haversine_mm(lat1, lon1, lat2, lon2);
    let da = abs_int(alt1 - alt2);
    spec_isqrt(h * h + da * da)
}

/// Distance in millimeters between two located points.
pub fn distance_mm_raw(lat1: i64, lon1: i64, alt1: i64, lat2: i64, lon2: i64, alt2: i64) -> (r:
    u64)
    requires
        -MAX_LAT_UDEG <= lat1 <= MAX_LAT_UDEG,
        -MAX_LAT_UDEG <= lat2 <= MAX_LAT_UDEG,
        -MAX_LON_UDEG <= lon1 <= MAX_LON_UDEG,
        -MAX_LON_UDEG <= lon2 <= MAX_LON_UDEG,
        -1_000_000_000 <= alt1 <= 1_000_000_000,
        -1_000_000_000 <= alt2 <= 1_000_000_000,
    ensures
        r as int == spec_distance_mm(
            lat1 as int,
            lon1 as int,
            alt1 as int,
            lat2 as int,
            lon2 as int,
            alt2 as int,
        ),
        r <= 18_200_000_000,
{
    let h: u64 = haversine_distance(lat1, lon1, lat2, lon2);
    let da: i64 = if alt1 >= alt2 {
        alt1 - alt2
    } else {
        alt2 - alt1
    };
    proof {
        assert((h as int) * (h as int) <= 18_022_000_000 * 18_022_000_000) by (nonlinear_arith)
            requires
                0 <= h as int <= 18_022_000_000,
        ;
        assert((da as int) * (da as int) <= 2_000_000_000 * 2_000_000_000) by (nonlinear_arith)
            requires
                0 <= da as int <= 2_000_000_000,
        ;
    }
    let hh: u128 = (h as u128) * (h as u128);
    let aa: u128 = (da as u128) * (da as u128);
    let n: u128 = hh + aa;
    let r: u64 = isqrt_u128(n);
    proof {
        let ni = n as int;
        let ri = spec_isqrt(ni);
        assert(0 <= ri <= 18_200_000_000) by (nonlinear_arith)
            requires
                is_sqrt(ri, ni),
                ni <= 18_022_000_000 * 18_022_000_000 + 2_000_000_000 * 2_000_000_000,
        ;
    }
    r
}

/// The distance from a point to itself is exactly zero.
pub proof fn lemma_distance_self_zero(lat: int, lon: int, alt: int)
    requires
        abs_int(lat) <= MAX_LAT_UDEG,
        abs_int(lon) <= MAX_LON_UDEG,
    ensures
        spec_distance_mm(lat, lon, alt, lat, lon, alt) == 0,
{
    assert(spec_sin_half_nano(0) == 0);
    lemma_isqrt_zero();
    assert(spec_haversine_mm(lat, lon, lat, lon) == 0) by {
        let c1 = spec_cos_nano(lat);
        assert(0 * 0 + (c1 * c1 * 0 * 0) / 1_000_000_000_000_000_000 == 0) by (nonlinear_arith);
    }
    assert(spec_distance_mm(lat, lon, alt, lat, lon, alt) == spec_isqrt(0));
}

/// Distance is symmetric in its two points.
pub proof fn lemma_distance_symmetric(
    lat1: int,
    lon1: int,
    alt1: int,
    lat2: int,
    lon2: int,
    alt2: int,
)
    ensures
        spec_distance_mm(lat1, lon1, alt1, lat2, lon2, alt2) == spec_distance_mm(
            lat2,
            lon2,
            alt2,
            lat1,
            lon1,
            alt1,
        ),
{
    assert(abs_int(lat1 - lat2) == abs_int(lat2 - lat1));
    assert(abs_int(lon1 - lon2) == abs_int(lon2 - lon1));
    assert(abs_int(alt1 - alt2) == abs_int(alt2 - alt1));
    let c1 = spec_cos_nano(lat1);
    let c2 = spec_cos_nano(lat2);
    let s2 = spec_sin_half_nano(abs_int(lon1 - lon2));
    assert(c1 * c2 * s2 * s2 == c2 * c1 * s2 * s2) by (nonlinear_arith);
}

} // verus!

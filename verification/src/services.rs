//! Service-level constants and initialization checks.

use vstd::prelude::*;

verus! {

/// Smallest scanning range, in millimeters.
pub const MIN_SCAN_RANGE_MM: u64 = 500;

/// Largest scanning range, in millimeters.
pub const MAX_SCAN_RANGE_MM: u64 = 50_000;

/// Required precision at 10 m, in millimeters.
pub const PRECISION_AT_10M_MM: u64 = 10;

/// Horizontal field of view, in degrees.
pub const HORIZONTAL_FOV_DEG: u32 = 120;

/// Smallest refresh rate, in hertz.
pub const MIN_REFRESH_RATE_HZ: u32 = 30;

/// Default confidence threshold of the services, in thousandths.
pub const DEFAULT_CONFIDENCE_PPK: u32 = 850;

/// Checks the service constants against the core requirements; with the
/// constants of this build the checks always pass.
pub fn init_spatial_services() -> (result: Result<(), String>)
    ensures
        result is Ok,
{
    if MIN_SCAN_RANGE_MM < 500 || MAX_SCAN_RANGE_MM > 50_000 {
        return Err(String::from_str("scan range must lie between 0.5 m and 50 m"));
    }
    if HORIZONTAL_FOV_DEG != 120 {
        return Err(String::from_str("horizontal field of view must be 120 degrees"));
    }
    if MIN_REFRESH_RATE_HZ < 30 {
        return Err(String::from_str("minimum refresh rate must be 30 Hz"));
    }
    Ok(())
}

} // verus!

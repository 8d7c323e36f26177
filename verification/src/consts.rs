//! Shared constants: physical inputs, fixed-point scales, and the size
//! bounds under which all arithmetic in the crate stays within `u64`.

use vstd::prelude::*;

verus! {

/// Average solar flux in low Earth orbit, in watts per square metre.
pub const SOLAR_FLUX_LEO_AVG_W_M2: u64 = 1367;

/// One whole in the per-mille fixed-point scale used for efficiencies,
/// angle modifiers and degradation factors.
pub const PER_MILLE: u64 = 1000;

/// Pointing-angle modifier assumed in the nominal and payload modes.
pub const ANGLE_NOMINAL_PM: u64 = 800;

/// Pointing-angle modifier assumed in safe mode (survival pointing).
pub const ANGLE_SAFE_PM: u64 = 500;

/// Largest power value any component may be configured with, in microwatts
/// (one megawatt). Keeps sums and rate products inside `u64`.
pub const MAX_POWER_UW: u64 = 1_000_000_000_000;

/// Largest battery capacity, in microwatt-hours (one megawatt-hour).
pub const MAX_ENERGY_UWH: u64 = 1_000_000_000_000;

/// Longest tick duration, in thousandths of an hour (1000 hours).
pub const MAX_DURATION_MH: u64 = 1_000_000;

/// Largest panel area, in square centimetres (100 square metres).
pub const MAX_AREA_CM2: u64 = 1_000_000;

/// Largest sun intensity accepted by the panel model, in watts per square
/// metre.
pub const MAX_INTENSITY_W_M2: u64 = 10_000;

/// Most loads one distribution unit can hold.
pub const MAX_LOADS: usize = 4096;

/// Most panels one EPS can hold.
pub const MAX_PANELS: usize = 4096;

/// Charge efficiency a fresh battery starts with, in per-mille.
pub const DEFAULT_CHARGE_EFFICIENCY_PM: u64 = 900;

/// Discharge efficiency a fresh battery starts with, in per-mille.
pub const DEFAULT_DISCHARGE_EFFICIENCY_PM: u64 = 900;

/// Battery health (percent) below which the battery is declared faulty.
pub const FAULT_HEALTH_THRESHOLD_PCT: u64 = 20;

/// State-of-charge (percent) below which the controller treats the battery
/// as critically low and sheds non-critical loads.
pub const SOC_SHED_THRESHOLD_PCT: u64 = 10;

} // verus!

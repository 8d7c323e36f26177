//! Battery operating states, satellite operational modes, fault causes and
//! the configuration-time error taxonomy.

use vstd::prelude::*;

verus! {

/// Why a battery entered the `Fault` state. A closed enumeration so call
/// sites can handle every cause exhaustively.
#[derive(Clone, Copy, Debug, PartialEq, Eq, Structural)]
pub enum FaultCause {
    /// Health fell below the fault threshold.
    SevereDegradation,
    /// Reserved for an external thermal-protection path; the power-balance
    /// model itself never raises it.
    OverTemperature,
}

impl FaultCause {
    /// Human-readable diagnostic for telemetry or logs.
    pub fn description(&self) -> (r: String)
        ensures
            (match self {
                FaultCause::SevereDegradation => r@ == "severely degraded"@,
                FaultCause::OverTemperature => r@ == "over temperature"@,
            }),
    {
        match self {
            FaultCause::SevereDegradation => "severely degraded".to_owned(),
            FaultCause::OverTemperature => "over temperature".to_owned(),
        }
    }
}

/// Operating state of a battery. `Fault` is sticky: no operation of this
/// crate leaves it once entered.
#[derive(Clone, Copy, Debug, PartialEq, Eq, Structural)]
pub enum BatteryState {
    Charging,
    Discharging,
    Idle,
    Full,
    Empty,
    Fault(FaultCause),
}

impl BatteryState {
    /// True on any `Fault` state, whatever the cause.
    pub open spec fn spec_is_fault(self) -> bool {
        match self {
            BatteryState::Fault(_) => true,
            _ => false,
        }
    }

    /// True on any `Fault` state, whatever the cause.
    pub fn is_fault(&self) -> (r: bool)
        ensures
            r == self.spec_is_fault(),
    {
        match self {
            BatteryState::Fault(_) => true,
            _ => false,
        }
    }
}

/// Operational mode of the satellite; selects the assumed illumination and
/// the baseline load configuration.
#[derive(Clone, Copy, Debug, PartialEq, Eq, Structural)]
pub enum SatelliteOperationalMode {
    NominalSunlit,
    NominalEclipse,
    SafeMode,
    PayloadOperation,
}

/// Configuration-time errors. Ordinary power deficits are never errors:
/// they are absorbed by discharge, shedding and mode transition.
#[derive(Clone, Copy, Debug, PartialEq, Eq, Structural)]
pub enum EpsError {
    /// A load identifier was referenced that the distribution unit does not
    /// hold.
    NotFound,
    /// A load was registered under an identifier that already exists.
    DuplicateId,
}

} // verus!

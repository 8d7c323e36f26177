//! Battery model: stores and releases energy with charge/discharge
//! efficiency losses, rate limits, health-based capacity derating and an
//! explicit operating-state machine.
//!
//! The governing invariant, kept before and after every operation, is
//! `0 <= current_charge_uwh <= capacity_uwh * health_pct / 100` (the
//! *effective capacity*).

use vstd::arithmetic::div_mod::{
    lemma_div_by_multiple, lemma_div_is_ordered, lemma_div_pos_is_pos, lemma_fundamental_div_mod,
    lemma_mod_division_less_than_divisor, lemma_multiply_divide_le, lemma_multiply_divide_lt,
};
use vstd::arithmetic::mul::{lemma_mul_inequality, lemma_mul_nonnegative, lemma_mul_upper_bound};
use vstd::prelude::*;

use crate::consts::{
    DEFAULT_CHARGE_EFFICIENCY_PM, DEFAULT_DISCHARGE_EFFICIENCY_PM, FAULT_HEALTH_THRESHOLD_PCT,
    MAX_DURATION_MH, MAX_ENERGY_UWH, MAX_POWER_UW, PER_MILLE,
};
use crate::enums::{BatteryState, FaultCause};

verus! {

/// A battery with fixed identity and static parameters; only the stored
/// energy, the operating state, the health and the cycle counter change.
#[derive(Clone, Debug)]
pub struct Battery {
    pub id: u32,
    /// Nameplate capacity in microwatt-hours.
    pub capacity_uwh: u64,
    /// Stored energy in microwatt-hours.
    pub current_charge_uwh: u64,
    /// Nominal voltage in millivolts.
    pub voltage_mv: u64,
    /// Highest accepted charging power in microwatts, before derating.
    pub max_charge_rate_uw: u64,
    /// Highest delivered discharging power in microwatts, before derating.
    pub max_discharge_rate_uw: u64,
    pub state: BatteryState,
    /// Health in percent; 100 when pristine. Derates capacity and rates.
    pub health_pct: u64,
    /// Fraction of drawn energy actually stored, in per-mille.
    pub charge_efficiency_pm: u64,
    /// Fraction of released energy actually delivered, in per-mille.
    pub discharge_efficiency_pm: u64,
    /// Cumulative full-discharge count; saturates instead of wrapping.
    pub cycles: u64,
}

/// `(x / d) * d <= x` for non-negative `x` and positive `d`: multiplying a
/// floored quotient back never exceeds the dividend.
pub proof fn lemma_div_mul_le(x: int, d: int)
    requires
        x >= 0,
        d > 0,
    ensures
        (x / d) * d <= x,
{
    lemma_fundamental_div_mod(x, d);
    lemma_mod_division_less_than_divisor(x, d);
    vstd::arithmetic::mul::lemma_mul_is_commutative(x / d, d);
}

impl Battery {
    /// Nameplate capacity derated by health, in microwatt-hours.
    pub open spec fn spec_effective_capacity(self) -> int {
        self.capacity_uwh * self.health_pct / 100
    }

    /// Highest charging power the battery accepts at its current health.
    pub open spec fn spec_charge_rate_cap(self) -> int {
        self.max_charge_rate_uw * self.health_pct / 100
    }

    /// Highest discharging power the battery delivers at its current health.
    pub open spec fn spec_discharge_rate_cap(self) -> int {
        self.max_discharge_rate_uw * self.health_pct / 100
    }

    /// Well-formedness: configuration within the crate's size bounds,
    /// efficiencies in (0, 1], health within 0..=100, and stored energy
    /// within the effective capacity.
    pub open spec fn wf(self) -> bool {
        &&& self.capacity_uwh <= MAX_ENERGY_UWH
        &&& self.max_charge_rate_uw <= MAX_POWER_UW
        &&& self.max_discharge_rate_uw <= MAX_POWER_UW
        &&& self.health_pct <= 100
        &&& 1 <= self.charge_efficiency_pm <= PER_MILLE
        &&& 1 <= self.discharge_efficiency_pm <= PER_MILLE
        &&& self.current_charge_uwh <= self.spec_effective_capacity()
    }

    /// The requested charging power after the health-derated rate limit.
    pub open spec fn spec_capped_charge_power(self, power_uw: u64) -> int {
        vstd::math::min(power_uw as int, self.spec_charge_rate_cap())
    }

    /// Energy stored by one `charge` call before clamping: capped power
    /// times duration times charge efficiency, with the fixed-point scales
    /// of duration (per-mille hours) and efficiency (per-mille) divided out.
    pub open spec fn spec_charge_energy(self, power_uw: u64, duration_mh: u64) -> int {
        self.spec_capped_charge_power(power_uw) * duration_mh * self.charge_efficiency_pm
            / 1_000_000
    }

    /// The battery after one `charge` call. A faulty battery is untouched;
    /// an already-full battery is clamped and marked `Full`; otherwise the
    /// charge energy is added and clamped at the effective capacity.
    pub open spec fn spec_charge(self, power_uw: u64, duration_mh: u64) -> Battery {
        if self.state.spec_is_fault() {
            self
        } else {
            let eff = self.spec_effective_capacity();
            if self.current_charge_uwh >= eff {
                Battery { current_charge_uwh: eff as u64, state: BatteryState::Full, ..self }
            } else {
                let grown = self.current_charge_uwh + self.spec_charge_energy(
                    power_uw,
                    duration_mh,
                );
                if grown >= eff {
                    Battery { current_charge_uwh: eff as u64, state: BatteryState::Full, ..self }
                } else {
                    Battery {
                        current_charge_uwh: grown as u64,
                        state: BatteryState::Charging,
                        ..self
                    }
                }
            }
        }
    }

    /// The requested discharging power after the health-derated rate limit.
    pub open spec fn spec_capped_discharge_power(self, power_uw: u64) -> int {
        vstd::math::min(power_uw as int, self.spec_discharge_rate_cap())
    }

    /// Energy that must leave the store to meet the capped demand for the
    /// given duration, accounting for discharge losses.
    pub open spec fn spec_energy_needed(self, power_uw: u64, duration_mh: u64) -> int {
        self.spec_capped_discharge_power(power_uw) * duration_mh / (
        self.discharge_efficiency_pm as int)
    }

    /// The battery after one `discharge` call, paired with the power
    /// actually delivered in microwatts. A faulty battery is untouched and
    /// delivers nothing; an empty one is marked `Empty` and delivers
    /// nothing; otherwise the store supplies what it can, the state becomes
    /// `Empty` (counting a cycle) or `Discharging`, and the delivered power
    /// is the supplied energy scaled by the discharge efficiency over the
    /// duration.
    pub open spec fn spec_discharge(self, power_demand_uw: u64, duration_mh: u64) -> (
        Battery,
        int,
    ) {
        if self.state.spec_is_fault() {
            (self, 0)
        } else if self.current_charge_uwh == 0 {
            (Battery { state: BatteryState::Empty, ..self }, 0)
        } else {
            let needed = self.spec_energy_needed(power_demand_uw, duration_mh);
            let supplied = vstd::math::min(self.current_charge_uwh as int, needed);
            let remaining = self.current_charge_uwh - supplied;
            let delivered = supplied * self.discharge_efficiency_pm / (duration_mh as int);
            if remaining == 0 {
                (
                    Battery {
                        current_charge_uwh: 0,
                        state: BatteryState::Empty,
                        cycles: if self.cycles == u64::MAX {
                            self.cycles
                        } else {
                            (self.cycles + 1) as u64
                        },
                        ..self
                    },
                    delivered,
                )
            } else {
                (
                    Battery {
                        current_charge_uwh: remaining as u64,
                        state: BatteryState::Discharging,
                        ..self
                    },
                    delivered,
                )
            }
        }
    }

    /// State of charge in percent: stored energy over effective capacity.
    /// Zero effective capacity reads as zero.
    pub open spec fn spec_soc_pct(self) -> int {
        if self.spec_effective_capacity() == 0 {
            0
        } else {
            self.current_charge_uwh * 100 / self.spec_effective_capacity()
        }
    }

    /// The battery after a balanced tick: a battery caught mid-transfer is
    /// settled to `Full`, `Empty` or `Idle` from its stored energy alone;
    /// every other state (including `Fault`) is kept.
    pub open spec fn spec_settle(self) -> Battery {
        match self.state {
            BatteryState::Charging | BatteryState::Discharging => {
                if self.current_charge_uwh >= self.spec_effective_capacity() {
                    Battery { state: BatteryState::Full, ..self }
                } else if self.current_charge_uwh == 0 {
                    Battery { state: BatteryState::Empty, ..self }
                } else {
                    Battery { state: BatteryState::Idle, ..self }
                }
            },
            _ => self,
        }
    }

    /// The battery after one `apply_health_degradation` call: health drops
    /// by `delta_pct` saturating at zero, stored energy is clamped to the
    /// shrunken effective capacity, and below the fault threshold the state
    /// is forced to `Fault(SevereDegradation)`.
    pub open spec fn spec_apply_health_degradation(self, delta_pct: u64) -> Battery {
        let health = if delta_pct <= self.health_pct {
            (self.health_pct - delta_pct) as u64
        } else {
            0
        };
        let shrunk = Battery { health_pct: health, ..self };
        let eff = shrunk.spec_effective_capacity();
        let clamped = if self.current_charge_uwh > eff {
            Battery { current_charge_uwh: eff as u64, ..shrunk }
        } else {
            shrunk
        };
        if health < FAULT_HEALTH_THRESHOLD_PCT && !self.state.spec_is_fault() {
            Battery { state: BatteryState::Fault(FaultCause::SevereDegradation), ..clamped }
        } else {
            clamped
        }
    }
}

/// Bounds that every well-formed battery puts on its derived quantities:
/// the effective capacity never exceeds the nameplate capacity and the rate
/// caps never exceed the configured rates.
pub proof fn lemma_battery_caps(b: Battery)
    requires
        b.wf(),
    ensures
        0 <= b.capacity_uwh * b.health_pct <= 100_000_000_000_000,
        0 <= b.spec_effective_capacity() <= b.capacity_uwh,
        0 <= b.max_charge_rate_uw * b.health_pct <= 100_000_000_000_000,
        0 <= b.spec_charge_rate_cap() <= b.max_charge_rate_uw,
        0 <= b.max_discharge_rate_uw * b.health_pct <= 100_000_000_000_000,
        0 <= b.spec_discharge_rate_cap() <= b.max_discharge_rate_uw,
{
    lemma_mul_nonnegative(b.capacity_uwh as int, b.health_pct as int);
    lemma_mul_upper_bound(b.capacity_uwh as int, MAX_ENERGY_UWH as int, b.health_pct as int, 100);
    lemma_div_pos_is_pos(b.capacity_uwh * b.health_pct, 100);
    lemma_mul_inequality(b.health_pct as int, 100, b.capacity_uwh as int);
    lemma_multiply_divide_le(b.capacity_uwh * b.health_pct, 100, b.capacity_uwh as int);
    lemma_mul_nonnegative(b.max_charge_rate_uw as int, b.health_pct as int);
    lemma_mul_upper_bound(
        b.max_charge_rate_uw as int,
        MAX_POWER_UW as int,
        b.health_pct as int,
        100,
    );
    lemma_div_pos_is_pos(b.max_charge_rate_uw * b.health_pct, 100);
    lemma_mul_inequality(b.health_pct as int, 100, b.max_charge_rate_uw as int);
    lemma_multiply_divide_le(
        b.max_charge_rate_uw * b.health_pct,
        100,
        b.max_charge_rate_uw as int,
    );
    lemma_mul_nonnegative(b.max_discharge_rate_uw as int, b.health_pct as int);
    lemma_mul_upper_bound(
        b.max_discharge_rate_uw as int,
        MAX_POWER_UW as int,
        b.health_pct as int,
        100,
    );
    lemma_div_pos_is_pos(b.max_discharge_rate_uw * b.health_pct, 100);
    lemma_mul_inequality(b.health_pct as int, 100, b.max_discharge_rate_uw as int);
    lemma_multiply_divide_le(
        b.max_discharge_rate_uw * b.health_pct,
        100,
        b.max_discharge_rate_uw as int,
    );
}

/// One `charge` step preserves well-formedness, never drives the stored
/// energy above the effective capacity, and touches no static parameter.
pub proof fn lemma_charge_facts(b: Battery, power_uw: u64, duration_mh: u64)
    requires
        b.wf(),
    ensures
        b.spec_charge(power_uw, duration_mh).wf(),
        b.spec_charge(power_uw, duration_mh).current_charge_uwh
            <= b.spec_charge(power_uw, duration_mh).spec_effective_capacity(),
        0 <= b.spec_charge_energy(power_uw, duration_mh),
        b.spec_charge(power_uw, duration_mh) == (Battery {
            current_charge_uwh: b.spec_charge(power_uw, duration_mh).current_charge_uwh,
            state: b.spec_charge(power_uw, duration_mh).state,
            ..b
        }),
{
    lemma_battery_caps(b);
    let capped = b.spec_capped_charge_power(power_uw);
    lemma_mul_nonnegative(capped, duration_mh as int);
    lemma_mul_nonnegative(capped * duration_mh, b.charge_efficiency_pm as int);
    lemma_div_pos_is_pos(capped * duration_mh * b.charge_efficiency_pm, 1_000_000);
}

/// One `discharge` step preserves well-formedness, never drives the stored
/// energy below zero (it only ever removes what is present), delivers a
/// non-negative power no greater than the capped demand, and touches no
/// static parameter.
pub proof fn lemma_discharge_facts(b: Battery, power_demand_uw: u64, duration_mh: u64)
    requires
        b.wf(),
        duration_mh >= 1,
    ensures
        b.spec_discharge(power_demand_uw, duration_mh).0.wf(),
        b.spec_discharge(power_demand_uw, duration_mh).0.current_charge_uwh
            <= b.current_charge_uwh,
        0 <= b.spec_discharge(power_demand_uw, duration_mh).1
            <= b.spec_capped_discharge_power(power_demand_uw),
        b.spec_discharge(power_demand_uw, duration_mh).1 * duration_mh <= (
        b.current_charge_uwh - b.spec_discharge(power_demand_uw, duration_mh).0.current_charge_uwh)
            * b.discharge_efficiency_pm,
        b.spec_discharge(power_demand_uw, duration_mh).0 == (Battery {
            current_charge_uwh: b.spec_discharge(power_demand_uw, duration_mh).0.current_charge_uwh,
            state: b.spec_discharge(power_demand_uw, duration_mh).0.state,
            cycles: b.spec_discharge(power_demand_uw, duration_mh).0.cycles,
            ..b
        }),
{
    lemma_battery_caps(b);
    let de = b.discharge_efficiency_pm as int;
    if !b.state.spec_is_fault() && b.current_charge_uwh != 0 {
        let capped = b.spec_capped_discharge_power(power_demand_uw);
        let needed = b.spec_energy_needed(power_demand_uw, duration_mh);
        let supplied = vstd::math::min(b.current_charge_uwh as int, needed);
        let delivered = supplied * de / (duration_mh as int);
        lemma_mul_nonnegative(capped, duration_mh as int);
        lemma_div_pos_is_pos(capped * duration_mh, de);
        lemma_mul_nonnegative(supplied, de);
        lemma_div_pos_is_pos(supplied * de, duration_mh as int);
        // delivered * duration <= supplied * de
        lemma_div_mul_le(supplied * de, duration_mh as int);
        // delivered <= capped: supplied * de <= capped * duration, then divide
        lemma_div_mul_le(capped * duration_mh, de);
        lemma_mul_inequality(supplied, (capped * duration_mh) / de, de);
        lemma_multiply_divide_le(supplied * de, duration_mh as int, capped);
    }
}

impl Battery {
    /// A fresh battery: idle, pristine health, default efficiencies, and an
    /// initial charge clamped to the nameplate capacity.
    pub fn new(
        id: u32,
        capacity_uwh: u64,
        initial_charge_uwh: u64,
        voltage_mv: u64,
        max_charge_rate_uw: u64,
        max_discharge_rate_uw: u64,
    ) -> (r: Battery)
        requires
            capacity_uwh <= MAX_ENERGY_UWH,
            max_charge_rate_uw <= MAX_POWER_UW,
            max_discharge_rate_uw <= MAX_POWER_UW,
        ensures
            r == (Battery {
                id,
                capacity_uwh,
                current_charge_uwh: if initial_charge_uwh <= capacity_uwh {
                    initial_charge_uwh
                } else {
                    capacity_uwh
                },
                voltage_mv,
                max_charge_rate_uw,
                max_discharge_rate_uw,
                state: BatteryState::Idle,
                health_pct: 100,
                charge_efficiency_pm: DEFAULT_CHARGE_EFFICIENCY_PM,
                discharge_efficiency_pm: DEFAULT_DISCHARGE_EFFICIENCY_PM,
                cycles: 0,
            }),
            r.wf(),
    {
        let clamped = if initial_charge_uwh <= capacity_uwh {
            initial_charge_uwh
        } else {
            capacity_uwh
        };
        proof {
            lemma_div_by_multiple(capacity_uwh as int, 100);
        }
        Battery {
            id,
            capacity_uwh,
            current_charge_uwh: clamped,
            voltage_mv,
            max_charge_rate_uw,
            max_discharge_rate_uw,
            state: BatteryState::Idle,
            health_pct: 100,
            charge_efficiency_pm: DEFAULT_CHARGE_EFFICIENCY_PM,
            discharge_efficiency_pm: DEFAULT_DISCHARGE_EFFICIENCY_PM,
            cycles: 0,
        }
    }

    /// Nameplate capacity derated by health, in microwatt-hours.
    pub fn get_effective_capacity_uwh(&self) -> (r: u64)
        requires
            self.wf(),
        ensures
            r == self.spec_effective_capacity(),
    {
        proof {
            lemma_battery_caps(*self);
        }
        self.capacity_uwh * self.health_pct / 100
    }

    /// Stores energy drawn at `power_uw` (capped by the derated charge
    /// rate) for `duration_mh`, subject to the charge efficiency, clamping
    /// at the effective capacity.
    pub fn charge(&mut self, power_uw: u64, duration_mh: u64)
        requires
            old(self).wf(),
            1 <= duration_mh <= MAX_DURATION_MH,
        ensures
            *final(self) == old(self).spec_charge(power_uw, duration_mh),
            final(self).wf(),
    {
        proof {
            lemma_battery_caps(*self);
            lemma_charge_facts(*self, power_uw, duration_mh);
        }
        if self.state.is_fault() {
            return ;
        }
        let eff = self.get_effective_capacity_uwh();
        if self.current_charge_uwh >= eff {
            self.state = BatteryState::Full;
            self.current_charge_uwh = eff;
            return ;
        }
        let rate_cap = self.max_charge_rate_uw * self.health_pct / 100;
        let capped = if power_uw < rate_cap {
            power_uw
        } else {
            rate_cap
        };
        proof {
            lemma_mul_upper_bound(capped as int, MAX_POWER_UW as int, duration_mh as int, MAX_DURATION_MH as int);
            lemma_mul_nonnegative(capped as int, duration_mh as int);
            lemma_mul_upper_bound(
                capped * duration_mh,
                MAX_POWER_UW * MAX_DURATION_MH,
                self.charge_efficiency_pm as int,
                PER_MILLE as int,
            );
            lemma_mul_nonnegative(capped * duration_mh, self.charge_efficiency_pm as int);
            lemma_div_is_ordered(
                capped * duration_mh * self.charge_efficiency_pm,
                MAX_POWER_UW * MAX_DURATION_MH * PER_MILLE,
                1_000_000,
            );
            assert(MAX_POWER_UW * MAX_DURATION_MH * PER_MILLE / 1_000_000
                == 1_000_000_000_000_000);
        }
        let energy128: u128 = (capped as u128) * (duration_mh as u128) * (
        self.charge_efficiency_pm as u128) / 1_000_000;
        let energy: u64 = energy128 as u64;
        self.state = BatteryState::Charging;
        self.current_charge_uwh = self.current_charge_uwh + energy;
        if self.current_charge_uwh >= eff {
            self.current_charge_uwh = eff;
            self.state = BatteryState::Full;
        }
    }

    /// Releases energy to meet `power_demand_uw` (capped by the derated
    /// discharge rate) for `duration_mh`, subject to the discharge
    /// efficiency, and returns the power actually delivered — possibly less
    /// than requested.
    pub fn discharge(&mut self, power_demand_uw: u64, duration_mh: u64) -> (r: u64)
        requires
            old(self).wf(),
            1 <= duration_mh <= MAX_DURATION_MH,
        ensures
            *final(self) == old(self).spec_discharge(power_demand_uw, duration_mh).0,
            r == old(self).spec_discharge(power_demand_uw, duration_mh).1,
            final(self).wf(),
            r <= old(self).spec_capped_discharge_power(power_demand_uw),
    {
        proof {
            lemma_battery_caps(*self);
            lemma_discharge_facts(*self, power_demand_uw, duration_mh);
        }
        if self.state.is_fault() {
            return 0;
        }
        if self.current_charge_uwh == 0 {
            self.state = BatteryState::Empty;
            return 0;
        }
        let rate_cap = self.max_discharge_rate_uw * self.health_pct / 100;
        let capped = if power_demand_uw < rate_cap {
            power_demand_uw
        } else {
            rate_cap
        };
        proof {
            lemma_mul_upper_bound(
                capped as int,
                MAX_POWER_UW as int,
                duration_mh as int,
                MAX_DURATION_MH as int,
            );
            lemma_mul_nonnegative(capped as int, duration_mh as int);
            lemma_mul_upper_bound(
                vstd::math::min(self.current_charge_uwh as int, self.spec_energy_needed(power_demand_uw, duration_mh)),
                MAX_ENERGY_UWH as int,
                self.discharge_efficiency_pm as int,
                PER_MILLE as int,
            );
        }
        let needed = capped * duration_mh / self.discharge_efficiency_pm;
        let supplied = if self.current_charge_uwh < needed {
            self.current_charge_uwh
        } else {
            needed
        };
        proof {
            lemma_mul_nonnegative(supplied as int, self.discharge_efficiency_pm as int);
            lemma_mul_upper_bound(
                supplied as int,
                MAX_ENERGY_UWH as int,
                self.discharge_efficiency_pm as int,
                PER_MILLE as int,
            );
        }
        self.current_charge_uwh = self.current_charge_uwh - supplied;
        let delivered = supplied * self.discharge_efficiency_pm / duration_mh;
        if self.current_charge_uwh == 0 {
            self.state = BatteryState::Empty;
            if self.cycles < u64::MAX {
                self.cycles = self.cycles + 1;
            }
        } else {
            self.state = BatteryState::Discharging;
        }
        delivered
    }

    /// State of charge in percent, always within 0..=100 for a well-formed
    /// battery.
    pub fn get_soc_percentage(&self) -> (r: u64)
        requires
            self.wf(),
        ensures
            r == self.spec_soc_pct(),
            0 <= r <= 100,
    {
        proof {
            lemma_battery_caps(*self);
            lemma_soc_bounds(*self);
        }
        let eff = self.get_effective_capacity_uwh();
        if eff == 0 {
            0
        } else {
            proof {
                lemma_mul_upper_bound(self.current_charge_uwh as int, MAX_ENERGY_UWH as int, 100, 100);
            }
            self.current_charge_uwh * 100 / eff
        }
    }

    /// Current operating state.
    pub fn get_status(&self) -> (r: &BatteryState)
        ensures
            *r == self.state,
    {
        &self.state
    }

    /// Settles a battery caught mid-transfer to `Full`, `Empty` or `Idle`
    /// from its stored energy alone; no energy moves.
    pub fn settle_state(&mut self)
        requires
            old(self).wf(),
        ensures
            *final(self) == old(self).spec_settle(),
            final(self).wf(),
    {
        match self.state {
            BatteryState::Charging | BatteryState::Discharging => {
                let eff = self.get_effective_capacity_uwh();
                if self.current_charge_uwh >= eff {
                    self.state = BatteryState::Full;
                } else if self.current_charge_uwh == 0 {
                    self.state = BatteryState::Empty;
                } else {
                    self.state = BatteryState::Idle;
                }
            },
            _ => {},
        }
    }

    /// Lowers health by `delta_pct` saturating at zero (monotonic), clamps
    /// the stored energy to the shrunken effective capacity, and below the
    /// fault threshold forces the state to `Fault(SevereDegradation)`.
    pub fn apply_health_degradation(&mut self, delta_pct: u64)
        requires
            old(self).wf(),
        ensures
            *final(self) == old(self).spec_apply_health_degradation(delta_pct),
            final(self).wf(),
            final(self).health_pct <= old(self).health_pct,
    {
        if delta_pct <= self.health_pct {
            self.health_pct = self.health_pct - delta_pct;
        } else {
            self.health_pct = 0;
        }
        proof {
            lemma_mul_nonnegative(self.capacity_uwh as int, self.health_pct as int);
            lemma_mul_upper_bound(
                self.capacity_uwh as int,
                MAX_ENERGY_UWH as int,
                self.health_pct as int,
                100,
            );
            lemma_div_pos_is_pos(self.capacity_uwh * self.health_pct, 100);
            lemma_div_is_ordered(
                self.capacity_uwh * self.health_pct,
                MAX_ENERGY_UWH * 100,
                100,
            );
            lemma_div_by_multiple(MAX_ENERGY_UWH as int, 100);
            vstd::arithmetic::mul::lemma_mul_is_commutative(MAX_ENERGY_UWH as int, 100);
        }
        let eff = self.capacity_uwh * self.health_pct / 100;
        if self.current_charge_uwh > eff {
            self.current_charge_uwh = eff;
        }
        if self.health_pct < FAULT_HEALTH_THRESHOLD_PCT && !self.state.is_fault() {
            self.state = BatteryState::Fault(FaultCause::SevereDegradation);
        }
    }
}

/// The battery left by a history of `charge` calls, each entry one call's
/// power and duration, applied in order.
pub open spec fn spec_charge_seq(b: Battery, calls: Seq<(u64, u64)>) -> Battery
    decreases calls.len(),
{
    if calls.len() == 0 {
        b
    } else {
        spec_charge_seq(b, calls.drop_last()).spec_charge(calls.last().0, calls.last().1)
    }
}

/// Law: for any well-formed battery, no sequence of `charge` calls ever
/// drives the stored energy above the effective capacity.
pub proof fn lemma_charge_sequence_bounded(b: Battery, calls: Seq<(u64, u64)>)
    requires
        b.wf(),
    ensures
        spec_charge_seq(b, calls).wf(),
        spec_charge_seq(b, calls).current_charge_uwh <= spec_charge_seq(
            b,
            calls,
        ).spec_effective_capacity(),
    decreases calls.len(),
{
    if calls.len() > 0 {
        lemma_charge_sequence_bounded(b, calls.drop_last());
        lemma_charge_facts(spec_charge_seq(b, calls.drop_last()), calls.last().0, calls.last().1);
    }
}

/// The battery left by a history of `discharge` calls, each entry one
/// call's demanded power and duration, applied in order.
pub open spec fn spec_discharge_seq(b: Battery, calls: Seq<(u64, u64)>) -> Battery
    decreases calls.len(),
{
    if calls.len() == 0 {
        b
    } else {
        spec_discharge_seq(b, calls.drop_last()).spec_discharge(calls.last().0, calls.last().1).0
    }
}

/// Law: for any well-formed battery, no sequence of `discharge` calls ever
/// drives the stored energy below zero — discharging only ever removes
/// energy that is present.
pub proof fn lemma_discharge_sequence_bounded(b: Battery, calls: Seq<(u64, u64)>)
    requires
        b.wf(),
        forall|i: int| 0 <= i < calls.len() ==> (#[trigger] calls[i]).1 >= 1,
    ensures
        spec_discharge_seq(b, calls).wf(),
        0 <= spec_discharge_seq(b, calls).current_charge_uwh <= b.current_charge_uwh,
    decreases calls.len(),
{
    if calls.len() > 0 {
        assert(forall|i: int|
            0 <= i < calls.drop_last().len() ==> (#[trigger] calls.drop_last()[i]).1 >= 1);
        lemma_discharge_sequence_bounded(b, calls.drop_last());
        lemma_discharge_facts(
            spec_discharge_seq(b, calls.drop_last()),
            calls.last().0,
            calls.last().1,
        );
    }
}

/// Total energy delivered by a history of `discharge` calls, summed as
/// delivered power times duration, in microwatt-millihours.
pub open spec fn spec_discharge_seq_energy(b: Battery, calls: Seq<(u64, u64)>) -> int
    decreases calls.len(),
{
    if calls.len() == 0 {
        0
    } else {
        spec_discharge_seq_energy(b, calls.drop_last()) + spec_discharge_seq(
            b,
            calls.drop_last(),
        ).spec_discharge(calls.last().0, calls.last().1).1 * calls.last().1
    }
}

/// The energy a discharge history delivers is bounded by the energy that
/// left the store, scaled by the discharge efficiency.
proof fn lemma_discharge_seq_energy_bound(b: Battery, calls: Seq<(u64, u64)>)
    requires
        b.wf(),
        forall|i: int| 0 <= i < calls.len() ==> (#[trigger] calls[i]).1 >= 1,
    ensures
        spec_discharge_seq(b, calls).wf(),
        spec_discharge_seq(b, calls).discharge_efficiency_pm == b.discharge_efficiency_pm,
        spec_discharge_seq(b, calls).current_charge_uwh <= b.current_charge_uwh,
        0 <= spec_discharge_seq_energy(b, calls) <= (b.current_charge_uwh - spec_discharge_seq(
            b,
            calls,
        ).current_charge_uwh) * b.discharge_efficiency_pm,
    decreases calls.len(),
{
    let de = b.discharge_efficiency_pm as int;
    if calls.len() == 0 {
        lemma_mul_nonnegative(0, de);
    } else {
        let prefix = calls.drop_last();
        assert(forall|i: int| 0 <= i < prefix.len() ==> (#[trigger] prefix[i]).1 >= 1);
        lemma_discharge_seq_energy_bound(b, prefix);
        let bm = spec_discharge_seq(b, prefix);
        let bf = spec_discharge_seq(b, calls);
        lemma_discharge_facts(bm, calls.last().0, calls.last().1);
        let step = bm.spec_discharge(calls.last().0, calls.last().1).1 * calls.last().1;
        assert(step <= (bm.current_charge_uwh - bf.current_charge_uwh) * de) by {
            lemma_mul_nonnegative(bm.spec_discharge(calls.last().0, calls.last().1).1, calls.last().1 as int);
        }
        vstd::arithmetic::mul::lemma_mul_is_distributive_add_other_way(
            de,
            b.current_charge_uwh - bm.current_charge_uwh,
            bm.current_charge_uwh - bf.current_charge_uwh,
        );
        lemma_mul_nonnegative(bm.spec_discharge(calls.last().0, calls.last().1).1, calls.last().1 as int);
    }
}

/// Law: round-trip loss. Charge an initially empty, healthy battery whose
/// two efficiencies are both below unity, then discharge it over any
/// sequence of calls: the total energy delivered is strictly less than the
/// energy the charge drew. Both sides are in microwatt-millihours; the
/// drawn energy is the capped charging power times the charging duration.
pub proof fn lemma_round_trip_loss(
    b: Battery,
    power_uw: u64,
    duration_mh: u64,
    calls: Seq<(u64, u64)>,
)
    requires
        b.wf(),
        !b.state.spec_is_fault(),
        b.current_charge_uwh == 0,
        b.charge_efficiency_pm < PER_MILLE,
        b.discharge_efficiency_pm < PER_MILLE,
        b.spec_capped_charge_power(power_uw) * duration_mh >= 1,
        forall|i: int| 0 <= i < calls.len() ==> (#[trigger] calls[i]).1 >= 1,
    ensures
        spec_discharge_seq_energy(b.spec_charge(power_uw, duration_mh), calls)
            < b.spec_capped_charge_power(power_uw) * duration_mh,
{
    let e_in = b.spec_capped_charge_power(power_uw) * duration_mh;
    let ce = b.charge_efficiency_pm as int;
    let de = b.discharge_efficiency_pm as int;
    let b2 = b.spec_charge(power_uw, duration_mh);
    lemma_charge_facts(b, power_uw, duration_mh);
    lemma_battery_caps(b);
    let q = e_in * ce / 1_000_000;
    assert(q >= 0) by {
        lemma_mul_nonnegative(e_in, ce);
        lemma_div_pos_is_pos(e_in * ce, 1_000_000);
    }
    // the charge stored at most q
    assert(b2.current_charge_uwh <= q);
    lemma_discharge_seq_energy_bound(b2, calls);
    let total = spec_discharge_seq_energy(b2, calls);
    let bf = spec_discharge_seq(b2, calls);
    // total <= b2.current * de
    assert(total <= b2.current_charge_uwh * de) by {
        lemma_mul_inequality(
            b2.current_charge_uwh - bf.current_charge_uwh,
            b2.current_charge_uwh as int,
            de,
        );
    }
    // b2.current * de <= q * de
    lemma_mul_inequality(b2.current_charge_uwh as int, q, de);
    // q * de <= e_in * ce * de / 1_000_000
    assert(q * de <= e_in * ce * de / 1_000_000) by {
        lemma_div_mul_le(e_in * ce, 1_000_000);
        lemma_mul_inequality(q * 1_000_000, e_in * ce, de);
        lemma_mul_nonnegative(q, de);
        vstd::arithmetic::mul::lemma_mul_is_associative(q, 1_000_000, de);
        vstd::arithmetic::mul::lemma_mul_is_commutative(1_000_000, de);
        vstd::arithmetic::mul::lemma_mul_is_associative(q, de, 1_000_000);
        lemma_div_by_multiple(q * de, 1_000_000);
        lemma_div_is_ordered(q * de * 1_000_000, e_in * ce * de, 1_000_000);
    }
    // e_in * ce * de / 1_000_000 < e_in, since ce * de < 1_000_000
    assert(e_in * ce * de / 1_000_000 < e_in) by {
        lemma_mul_upper_bound(ce, 999, de, 999);
        vstd::arithmetic::mul::lemma_mul_is_associative(e_in, ce, de);
        vstd::arithmetic::mul::lemma_mul_left_inequality(e_in, ce * de, 998_001);
        vstd::arithmetic::mul::lemma_mul_left_inequality(e_in, 998_001, 1_000_000);
        vstd::arithmetic::mul::lemma_mul_is_commutative(e_in, 1_000_000);
        lemma_multiply_divide_lt(e_in * ce * de, 1_000_000, e_in);
    }
}

/// The state of charge of a well-formed battery lies within 0..=100.
pub proof fn lemma_soc_bounds(b: Battery)
    requires
        b.wf(),
    ensures
        0 <= b.spec_soc_pct() <= 100,
{
    lemma_battery_caps(b);
    let eff = b.spec_effective_capacity();
    if eff != 0 {
        lemma_mul_nonnegative(b.current_charge_uwh as int, 100);
        lemma_div_pos_is_pos(b.current_charge_uwh * 100, eff);
        lemma_mul_inequality(b.current_charge_uwh as int, eff, 100);
        lemma_multiply_divide_le(b.current_charge_uwh * 100, eff, 100);
    }
}

} // verus!

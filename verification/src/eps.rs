//! The EPS controller: owns the panels, the battery and the distribution
//! unit, and runs the per-tick power-balance algorithm — generation against
//! demand, surplus into the battery, deficit out of it, shedding and a safe
//! mode fallback under a sustained shortfall.

use vstd::arithmetic::mul::{lemma_mul_inequality, lemma_mul_nonnegative};
use vstd::prelude::*;

use crate::battery::{lemma_battery_caps, Battery};
use crate::consts::{
    ANGLE_NOMINAL_PM, ANGLE_SAFE_PM, MAX_DURATION_MH, MAX_LOADS, MAX_PANELS, MAX_POWER_UW,
    SOC_SHED_THRESHOLD_PCT, SOLAR_FLUX_LEO_AVG_W_M2,
};
use crate::enums::{BatteryState, EpsError, SatelliteOperationalMode};
use crate::pdu::{
    lemma_total_demand_bounds, spec_all_loads_wf, spec_has_load, spec_ids_unique, spec_shed_one,
    spec_total_demand, Load, PowerDistributionUnit,
};
use crate::solar_panel::SolarPanel;

verus! {

/// Identifiers of the loads the mode table switches by role. They are
/// validated against the distribution unit when the EPS is built, so a
/// mode change never references an undeclared load.
#[derive(Clone, Copy, Debug, PartialEq, Eq, Structural)]
pub struct ModeLoadRoles {
    pub payload_camera: u32,
    pub payload_transmitter: u32,
    pub receiver: u32,
    pub transmitter: u32,
    pub heater: u32,
}

/// Telemetry emitted by one tick, in place of any direct output device:
/// the mode and the power figures the tick settled on.
#[derive(Clone, Copy, Debug)]
pub struct TickTelemetry {
    pub mode: SatelliteOperationalMode,
    /// Total solar generation this tick, in microwatts.
    pub generated_uw: u64,
    /// Total load demand at the start of the tick, in microwatts.
    pub demanded_uw: u64,
    /// Battery state of charge at the end of the tick, in percent.
    pub battery_soc_pct: u64,
    /// Battery operating state at the end of the tick.
    pub battery_state: BatteryState,
    /// Total load demand at the end of the tick, in microwatts.
    pub total_demand_uw: u64,
}

/// Mathematical model of a whole EPS: the panels and loads as sequences,
/// beside the battery, the mode and the role table.
#[verifier::ext_equal]
pub ghost struct EpsModel {
    pub panels: Seq<SolarPanel>,
    pub battery: Battery,
    pub loads: Seq<Load>,
    pub mode: SatelliteOperationalMode,
    pub roles: ModeLoadRoles,
}

/// Sun intensity assumed under a mode, in watts per square metre: the LEO
/// average when sunlit, zero in eclipse.
pub open spec fn spec_mode_intensity(mode: SatelliteOperationalMode) -> u64 {
    match mode {
        SatelliteOperationalMode::NominalSunlit => SOLAR_FLUX_LEO_AVG_W_M2,
        SatelliteOperationalMode::PayloadOperation => SOLAR_FLUX_LEO_AVG_W_M2,
        SatelliteOperationalMode::NominalEclipse => 0,
        SatelliteOperationalMode::SafeMode => SOLAR_FLUX_LEO_AVG_W_M2,
    }
}

/// Pointing-angle modifier assumed under a mode, in per-mille.
pub open spec fn spec_mode_angle_pm(mode: SatelliteOperationalMode) -> u64 {
    match mode {
        SatelliteOperationalMode::NominalSunlit => ANGLE_NOMINAL_PM,
        SatelliteOperationalMode::PayloadOperation => ANGLE_NOMINAL_PM,
        SatelliteOperationalMode::NominalEclipse => 0,
        SatelliteOperationalMode::SafeMode => ANGLE_SAFE_PM,
    }
}

/// Every panel updated under the same illumination.
pub open spec fn spec_update_all(
    panels: Seq<SolarPanel>,
    intensity_w_m2: u64,
    angle_pm: u64,
) -> Seq<SolarPanel> {
    Seq::new(panels.len(), |i: int| panels[i].spec_update_power_output(intensity_w_m2, angle_pm))
}

/// Every panel in the sequence is well-formed.
pub open spec fn spec_all_panels_wf(s: Seq<SolarPanel>) -> bool {
    forall|i: int| 0 <= i < s.len() ==> (#[trigger] s[i]).wf()
}

/// Sum of the panels' outputs, in microwatts.
pub open spec fn spec_total_output(s: Seq<SolarPanel>) -> int
    decreases s.len(),
{
    if s.len() == 0 {
        0
    } else {
        spec_total_output(s.drop_last()) + s.last().current_power_output_uw
    }
}

/// A well-formed panel sequence's total output lies within
/// `0..=len * MAX_POWER_UW`.
pub proof fn lemma_total_output_bounds(s: Seq<SolarPanel>)
    requires
        spec_all_panels_wf(s),
    ensures
        0 <= spec_total_output(s) <= s.len() * MAX_POWER_UW,
    decreases s.len(),
{
    if s.len() == 0 {
    } else {
        assert(spec_all_panels_wf(s.drop_last()));
        lemma_total_output_bounds(s.drop_last());
        lemma_mul_nonnegative(s.len() as int - 1, MAX_POWER_UW as int);
        assert((s.len() - 1) * MAX_POWER_UW + MAX_POWER_UW == s.len() * MAX_POWER_UW)
            by (nonlinear_arith);
    }
}

/// The load sequence with the identified load switched; without that
/// identifier it is unchanged.
pub open spec fn spec_switch(loads: Seq<Load>, id: u32, on: bool) -> Seq<Load> {
    Seq::new(
        loads.len(),
        |i: int|
            if loads[i].id == id {
                Load { is_on: on, ..loads[i] }
            } else {
                loads[i]
            },
    )
}

/// The baseline a mode change starts from: every critical load on, every
/// non-critical load off.
pub open spec fn spec_baseline(loads: Seq<Load>) -> Seq<Load> {
    Seq::new(loads.len(), |i: int| (Load { is_on: loads[i].is_critical, ..loads[i] }))
}

/// Every load after a shedding pass.
pub open spec fn spec_shed_all(loads: Seq<Load>) -> Seq<Load> {
    Seq::new(loads.len(), |i: int| spec_shed_one(loads[i]))
}

impl EpsModel {
    /// Well-formedness of the whole system: components within their size
    /// bounds and invariants, and every role identifier present in the
    /// load set.
    pub open spec fn wf(self) -> bool {
        &&& self.panels.len() <= MAX_PANELS
        &&& spec_all_panels_wf(self.panels)
        &&& self.battery.wf()
        &&& self.loads.len() <= MAX_LOADS
        &&& spec_all_loads_wf(self.loads)
        &&& spec_ids_unique(self.loads)
        &&& spec_has_load(self.loads, self.roles.payload_camera)
        &&& spec_has_load(self.loads, self.roles.payload_transmitter)
        &&& spec_has_load(self.loads, self.roles.receiver)
        &&& spec_has_load(self.loads, self.roles.transmitter)
        &&& spec_has_load(self.loads, self.roles.heater)
    }
}

/// The model after one `set_satellite_mode` call: a no-op on the current
/// mode; otherwise the baseline is applied and the new mode's named loads
/// are switched on top of it.
pub open spec fn spec_set_mode(m: EpsModel, mode: SatelliteOperationalMode) -> EpsModel {
    if m.mode == mode {
        m
    } else {
        let base = spec_baseline(m.loads);
        let switched = match mode {
            SatelliteOperationalMode::SafeMode => base,
            SatelliteOperationalMode::PayloadOperation => spec_switch(
                spec_switch(base, m.roles.payload_camera, true),
                m.roles.payload_transmitter,
                true,
            ),
            SatelliteOperationalMode::NominalSunlit | SatelliteOperationalMode::NominalEclipse => {
                spec_switch(
                    spec_switch(spec_switch(base, m.roles.receiver, true), m.roles.transmitter, false),
                    m.roles.heater,
                    true,
                )
            },
        };
        EpsModel { mode, loads: switched, ..m }
    }
}

/// Presence of an identifier carries over to any pointwise rewrite that
/// keeps every load's identifier.
pub proof fn lemma_presence_preserved(s1: Seq<Load>, s2: Seq<Load>, id: u32)
    requires
        s1.len() == s2.len(),
        forall|j: int| 0 <= j < s1.len() ==> (#[trigger] s2[j]).id == s1[j].id,
        spec_has_load(s1, id),
    ensures
        spec_has_load(s2, id),
{
    let w = choose|i: int| 0 <= i < s1.len() && (#[trigger] s1[i]).id == id;
    assert(s2[w].id == id);
}

/// A pointwise rewrite that keeps every load's identifier, criticality and
/// draw preserves the load-set side of well-formedness.
pub proof fn lemma_load_rewrite_wf(s1: Seq<Load>, s2: Seq<Load>)
    requires
        s1.len() == s2.len(),
        forall|j: int| 0 <= j < s1.len() ==> (#[trigger] s2[j]).id == s1[j].id,
        forall|j: int|
            0 <= j < s1.len() ==> (#[trigger] s2[j]).power_consumption_uw
                == s1[j].power_consumption_uw,
        spec_all_loads_wf(s1),
        spec_ids_unique(s1),
    ensures
        spec_all_loads_wf(s2),
        spec_ids_unique(s2),
{
    assert forall|j: int| 0 <= j < s2.len() implies (#[trigger] s2[j]).wf() by {
        assert(s1[j].wf());
    }
    assert forall|p: int, q: int|
        #![trigger s2[p], s2[q]]
        0 <= p < q < s2.len() implies s2[p].id != s2[q].id by {
        assert(s1[p].id != s1[q].id);
    }
}

/// The model after one power-balance tick.
///
/// Panels are updated from the mode's illumination; with a surplus the
/// battery charges; with an exact balance it settles; with a deficit it
/// discharges, and if it under-delivers by more than the one-percent
/// tolerance while empty or critically low, non-critical loads are shed,
/// one more discharge covers what remains, and a battery still empty after
/// that retry sends the satellite to safe mode.
pub open spec fn spec_tick(m: EpsModel, duration_mh: u64) -> EpsModel {
    let panels2 = spec_update_all(
        m.panels,
        spec_mode_intensity(m.mode),
        spec_mode_angle_pm(m.mode),
    );
    let m1 = EpsModel { panels: panels2, ..m };
    let g = spec_total_output(panels2);
    let dem = spec_total_demand(m1.loads);
    if g > dem {
        EpsModel { battery: m1.battery.spec_charge((g - dem) as u64, duration_mh), ..m1 }
    } else if g == dem {
        EpsModel { battery: m1.battery.spec_settle(), ..m1 }
    } else {
        let deficit = (dem - g) as u64;
        let b2 = m1.battery.spec_discharge(deficit, duration_mh).0;
        let supplied = m1.battery.spec_discharge(deficit, duration_mh).1;
        let m2 = EpsModel { battery: b2, ..m1 };
        if supplied * 100 < deficit * 99 {
            if b2.state == BatteryState::Empty || b2.spec_soc_pct() < SOC_SHED_THRESHOLD_PCT {
                let m3 = EpsModel { loads: spec_shed_all(m2.loads), ..m2 };
                let dem2 = spec_total_demand(m3.loads);
                if g < dem2 {
                    let b3 = m3.battery.spec_discharge((dem2 - g) as u64, duration_mh).0;
                    let m4 = EpsModel { battery: b3, ..m3 };
                    if b3.state == BatteryState::Empty {
                        spec_set_mode(m4, SatelliteOperationalMode::SafeMode)
                    } else {
                        m4
                    }
                } else {
                    m3
                }
            } else {
                m2
            }
        } else {
            m2
        }
    }
}

/// A pointwise rewrite that keeps every load's identifier, criticality and
/// draw preserves the load-set invariants and the presence of every role.
pub proof fn lemma_roles_preserved(s1: Seq<Load>, s2: Seq<Load>, roles: ModeLoadRoles)
    requires
        s1.len() == s2.len(),
        forall|j: int| 0 <= j < s1.len() ==> (#[trigger] s2[j]).id == s1[j].id,
        forall|j: int|
            0 <= j < s1.len() ==> (#[trigger] s2[j]).power_consumption_uw
                == s1[j].power_consumption_uw,
        spec_all_loads_wf(s1),
        spec_ids_unique(s1),
        spec_has_load(s1, roles.payload_camera),
        spec_has_load(s1, roles.payload_transmitter),
        spec_has_load(s1, roles.receiver),
        spec_has_load(s1, roles.transmitter),
        spec_has_load(s1, roles.heater),
    ensures
        spec_all_loads_wf(s2),
        spec_ids_unique(s2),
        spec_has_load(s2, roles.payload_camera),
        spec_has_load(s2, roles.payload_transmitter),
        spec_has_load(s2, roles.receiver),
        spec_has_load(s2, roles.transmitter),
        spec_has_load(s2, roles.heater),
{
    lemma_load_rewrite_wf(s1, s2);
    lemma_presence_preserved(s1, s2, roles.payload_camera);
    lemma_presence_preserved(s1, s2, roles.payload_transmitter);
    lemma_presence_preserved(s1, s2, roles.receiver);
    lemma_presence_preserved(s1, s2, roles.transmitter);
    lemma_presence_preserved(s1, s2, roles.heater);
}

/// Law: switching to payload operation and then to safe mode leaves every
/// non-critical load off and every critical load on, whatever the loads
/// did before; criticality flags are untouched throughout.
pub proof fn lemma_safe_mode_after_payload(m: EpsModel)
    requires
        m.wf(),
    ensures
        spec_set_mode(
            spec_set_mode(m, SatelliteOperationalMode::PayloadOperation),
            SatelliteOperationalMode::SafeMode,
        ).loads.len() == m.loads.len(),
        forall|j: int|
            0 <= j < m.loads.len() ==> (#[trigger] spec_set_mode(
                spec_set_mode(m, SatelliteOperationalMode::PayloadOperation),
                SatelliteOperationalMode::SafeMode,
            ).loads[j]).is_on == m.loads[j].is_critical,
        forall|j: int|
            0 <= j < m.loads.len() ==> (#[trigger] spec_set_mode(
                spec_set_mode(m, SatelliteOperationalMode::PayloadOperation),
                SatelliteOperationalMode::SafeMode,
            ).loads[j]).is_critical == m.loads[j].is_critical,
{
    let m1 = spec_set_mode(m, SatelliteOperationalMode::PayloadOperation);
    let m2 = spec_set_mode(m1, SatelliteOperationalMode::SafeMode);
    assert(m1.mode == SatelliteOperationalMode::PayloadOperation);
    assert(m1.loads.len() == m.loads.len());
    assert(forall|j: int|
        0 <= j < m.loads.len() ==> (#[trigger] m1.loads[j]).is_critical
            == m.loads[j].is_critical);
    assert(m2.loads == spec_baseline(m1.loads));
}

/// The electrical power subsystem: panels, one battery, one distribution
/// unit, the current operational mode and the validated role table.
#[derive(Clone, Debug)]
pub struct EPS {
    pub solar_panels: Vec<SolarPanel>,
    pub battery: Battery,
    pub pdu: PowerDistributionUnit,
    pub current_mode: SatelliteOperationalMode,
    pub roles: ModeLoadRoles,
}

impl EPS {
    /// The mathematical model of this EPS.
    pub open spec fn model(self) -> EpsModel {
        EpsModel {
            panels: self.solar_panels@,
            battery: self.battery,
            loads: self.pdu.loads@,
            mode: self.current_mode,
            roles: self.roles,
        }
    }

    /// Well-formedness, delegated to the model.
    pub open spec fn wf(self) -> bool {
        self.model().wf()
    }

    /// Builds an EPS in the initial sunlit mode. Fails with `NotFound`,
    /// handing nothing back, exactly when some role identifier names a load
    /// the distribution unit does not hold — a configuration error caught
    /// before the first tick.
    pub fn new(
        solar_panels: Vec<SolarPanel>,
        battery: Battery,
        pdu: PowerDistributionUnit,
        roles: ModeLoadRoles,
    ) -> (r: Result<EPS, EpsError>)
        requires
            solar_panels@.len() <= MAX_PANELS,
            spec_all_panels_wf(solar_panels@),
            battery.wf(),
            pdu.wf(),
        ensures
            (match r {
                Ok(eps) => {
                    &&& eps.wf()
                    &&& eps.solar_panels@ == solar_panels@
                    &&& eps.battery == battery
                    &&& eps.pdu.loads@ == pdu.loads@
                    &&& eps.current_mode == SatelliteOperationalMode::NominalSunlit
                    &&& eps.roles == roles
                },
                Err(e) => {
                    &&& e == EpsError::NotFound
                    &&& !(spec_has_load(pdu.loads@, roles.payload_camera) && spec_has_load(
                        pdu.loads@,
                        roles.payload_transmitter,
                    ) && spec_has_load(pdu.loads@, roles.receiver) && spec_has_load(
                        pdu.loads@,
                        roles.transmitter,
                    ) && spec_has_load(pdu.loads@, roles.heater))
                },
            }),
    {
        let all_present = pdu.has_load(roles.payload_camera) && pdu.has_load(
            roles.payload_transmitter,
        ) && pdu.has_load(roles.receiver) && pdu.has_load(roles.transmitter) && pdu.has_load(
            roles.heater,
        );
        if !all_present {
            return Err(EpsError::NotFound);
        }
        Ok(
            EPS {
                solar_panels,
                battery,
                pdu,
                current_mode: SatelliteOperationalMode::NominalSunlit,
                roles,
            },
        )
    }

    /// Re-derives every panel's output from the illumination the current
    /// mode implies. Nothing else changes.
    pub fn update_solar_power_generation(&mut self)
        requires
            old(self).wf(),
        ensures
            final(self).wf(),
            final(self).solar_panels@ == spec_update_all(
                old(self).solar_panels@,
                spec_mode_intensity(old(self).current_mode),
                spec_mode_angle_pm(old(self).current_mode),
            ),
            final(self).battery == old(self).battery,
            final(self).pdu == old(self).pdu,
            final(self).current_mode == old(self).current_mode,
            final(self).roles == old(self).roles,
    {
        let (intensity, angle): (u64, u64) = match self.current_mode {
            SatelliteOperationalMode::NominalSunlit | SatelliteOperationalMode::PayloadOperation => (
                SOLAR_FLUX_LEO_AVG_W_M2,
                ANGLE_NOMINAL_PM,
            ),
            SatelliteOperationalMode::NominalEclipse => (0, 0),
            SatelliteOperationalMode::SafeMode => (SOLAR_FLUX_LEO_AVG_W_M2, ANGLE_SAFE_PM),
        };
        let n = self.solar_panels.len();
        let mut i: usize = 0;
        while i < n
            invariant
                0 <= i <= n,
                n == self.solar_panels@.len(),
                n == old(self).solar_panels@.len(),
                old(self).wf(),
                intensity == spec_mode_intensity(old(self).current_mode),
                angle == spec_mode_angle_pm(old(self).current_mode),
                self.battery == old(self).battery,
                self.pdu == old(self).pdu,
                self.current_mode == old(self).current_mode,
                self.roles == old(self).roles,
                forall|j: int|
                    0 <= j < i ==> self.solar_panels@[j] == (#[trigger] old(
                        self,
                    ).solar_panels@[j]).spec_update_power_output(intensity, angle),
                forall|j: int| 0 <= j < i ==> (#[trigger] self.solar_panels@[j]).wf(),
                forall|j: int|
                    i <= j < n ==> (#[trigger] self.solar_panels@[j]) == old(self).solar_panels@[j],
            decreases n - i,
        {
            self.solar_panels[i].update_power_output(intensity, angle);
            i = i + 1;
        }
        proof {
            assert(self.solar_panels@ =~= spec_update_all(
                old(self).solar_panels@,
                spec_mode_intensity(old(self).current_mode),
                spec_mode_angle_pm(old(self).current_mode),
            ));
            assert(spec_all_panels_wf(self.solar_panels@));
        }
    }

    /// Total solar generation in microwatts.
    pub fn get_total_generated_power_uw(&self) -> (r: u64)
        requires
            self.wf(),
        ensures
            r == spec_total_output(self.solar_panels@),
    {
        let n = self.solar_panels.len();
        let mut total: u64 = 0;
        let mut i: usize = 0;
        while i < n
            invariant
                0 <= i <= n,
                n == self.solar_panels@.len(),
                self.wf(),
                total == spec_total_output(self.solar_panels@.take(i as int)),
                total <= i * MAX_POWER_UW,
            decreases n - i,
        {
            proof {
                assert(self.solar_panels@.take(i as int + 1).drop_last() =~= self.solar_panels@.take(
                    i as int,
                ));
                lemma_mul_inequality(i as int + 1, MAX_PANELS as int, MAX_POWER_UW as int);
                lemma_mul_nonnegative(i as int, MAX_POWER_UW as int);
                assert(i * MAX_POWER_UW + MAX_POWER_UW == (i + 1) * MAX_POWER_UW)
                    by (nonlinear_arith);
            }
            total = total + self.solar_panels[i].get_power_output_uw();
            i = i + 1;
        }
        proof {
            assert(self.solar_panels@.take(n as int) =~= self.solar_panels@);
        }
        total
    }

    /// Switches the satellite to `mode`. A no-op on the current mode;
    /// otherwise every critical load is forced on and every non-critical
    /// load forced off, then the new mode's named loads are switched on top
    /// of that baseline. The role table was validated at construction, so
    /// no named switch can miss.
    pub fn set_satellite_mode(&mut self, mode: SatelliteOperationalMode)
        requires
            old(self).wf(),
        ensures
            final(self).wf(),
            final(self).model() == spec_set_mode(old(self).model(), mode),
            final(self).current_mode == mode,
            final(self).solar_panels@ == old(self).solar_panels@,
            final(self).battery == old(self).battery,
            final(self).roles == old(self).roles,
    {
        if self.current_mode == mode {
            return ;
        }
        self.current_mode = mode;
        let n = self.pdu.loads.len();
        let mut i: usize = 0;
        while i < n
            invariant
                0 <= i <= n,
                n == self.pdu.loads@.len(),
                n == old(self).pdu.loads@.len(),
                old(self).wf(),
                self.solar_panels@ == old(self).solar_panels@,
                self.battery == old(self).battery,
                self.current_mode == mode,
                self.roles == old(self).roles,
                forall|j: int|
                    0 <= j < i ==> self.pdu.loads@[j] == (Load {
                        is_on: (#[trigger] old(self).pdu.loads@[j]).is_critical,
                        ..old(self).pdu.loads@[j]
                    }),
                forall|j: int|
                    i <= j < n ==> (#[trigger] self.pdu.loads@[j]) == old(self).pdu.loads@[j],
            decreases n - i,
        {
            let l = self.pdu.loads[i];
            if !l.is_critical {
                self.pdu.loads[i] = Load { is_on: false, ..l };
            } else {
                self.pdu.loads[i] = Load { is_on: true, ..l };
            }
            i = i + 1;
        }
        let ghost base = spec_baseline(old(self).pdu.loads@);
        proof {
            assert(self.pdu.loads@ =~= base);
            lemma_roles_preserved(old(self).pdu.loads@, self.pdu.loads@, self.roles);
        }
        match mode {
            SatelliteOperationalMode::SafeMode => {},
            SatelliteOperationalMode::PayloadOperation => {
                let ghost s0 = self.pdu.loads@;
                let r1 = self.pdu.switch_load(self.roles.payload_camera, true);
                proof {
                    assert(r1 is Ok);
                    assert(self.pdu.loads@ =~= spec_switch(s0, self.roles.payload_camera, true));
                    lemma_roles_preserved(s0, self.pdu.loads@, self.roles);
                }
                let ghost s1 = self.pdu.loads@;
                let r2 = self.pdu.switch_load(self.roles.payload_transmitter, true);
                proof {
                    assert(r2 is Ok);
                    assert(self.pdu.loads@ =~= spec_switch(
                        s1,
                        self.roles.payload_transmitter,
                        true,
                    ));
                    lemma_roles_preserved(s1, self.pdu.loads@, self.roles);
                }
            },
            SatelliteOperationalMode::NominalSunlit | SatelliteOperationalMode::NominalEclipse => {
                let ghost s0 = self.pdu.loads@;
                let r1 = self.pdu.switch_load(self.roles.receiver, true);
                proof {
                    assert(r1 is Ok);
                    assert(self.pdu.loads@ =~= spec_switch(s0, self.roles.receiver, true));
                    lemma_roles_preserved(s0, self.pdu.loads@, self.roles);
                }
                let ghost s1 = self.pdu.loads@;
                let r2 = self.pdu.switch_load(self.roles.transmitter, false);
                proof {
                    assert(r2 is Ok);
                    assert(self.pdu.loads@ =~= spec_switch(s1, self.roles.transmitter, false));
                    lemma_roles_preserved(s1, self.pdu.loads@, self.roles);
                }
                let ghost s2 = self.pdu.loads@;
                let r3 = self.pdu.switch_load(self.roles.heater, true);
                proof {
                    assert(r3 is Ok);
                    assert(self.pdu.loads@ =~= spec_switch(s2, self.roles.heater, true));
                    lemma_roles_preserved(s2, self.pdu.loads@, self.roles);
                }
            },
        }
        proof {
            assert(self.model() =~= spec_set_mode(old(self).model(), mode));
        }
    }

    /// Runs one power-balance tick of `duration_mh` and returns the tick's
    /// telemetry. The whole transition — panel update, charge, settle, or
    /// discharge with shedding, retry and safe-mode fallback — is pinned to
    /// `spec_tick` on the model.
    pub fn manage_power(&mut self, duration_mh: u64) -> (r: TickTelemetry)
        requires
            old(self).wf(),
            1 <= duration_mh <= MAX_DURATION_MH,
        ensures
            final(self).wf(),
            final(self).model() == spec_tick(old(self).model(), duration_mh),
            r.mode == final(self).current_mode,
            r.generated_uw == spec_total_output(final(self).solar_panels@),
            r.demanded_uw == spec_total_demand(old(self).pdu.loads@),
            r.battery_soc_pct == final(self).battery.spec_soc_pct(),
            r.battery_state == final(self).battery.state,
            r.total_demand_uw == spec_total_demand(final(self).pdu.loads@),
    {
        let ghost m0 = old(self).model();
        let ghost mt = spec_tick(old(self).model(), duration_mh);
        self.update_solar_power_generation();
        let generated = self.get_total_generated_power_uw();
        let demanded = self.pdu.get_total_demand_uw();
        proof {
            lemma_total_output_bounds(self.solar_panels@);
            lemma_total_demand_bounds(self.pdu.loads@);
            lemma_mul_inequality(
                self.pdu.loads@.len() as int,
                MAX_LOADS as int,
                MAX_POWER_UW as int,
            );
            lemma_mul_inequality(
                self.solar_panels@.len() as int,
                MAX_PANELS as int,
                MAX_POWER_UW as int,
            );
        }
        if generated > demanded {
            self.battery.charge(generated - demanded, duration_mh);
        } else if generated == demanded {
            self.battery.settle_state();
        } else {
            let deficit = demanded - generated;
            proof {
                lemma_battery_caps(self.battery);
            }
            let supplied = self.battery.discharge(deficit, duration_mh);
            if supplied * 100 < deficit * 99 {
                let low = self.battery.state == BatteryState::Empty
                    || self.battery.get_soc_percentage() < SOC_SHED_THRESHOLD_PCT;
                if low {
                    let ghost before_shed = self.pdu.loads@;
                    let _shed = self.pdu.shed_non_critical_loads();
                    proof {
                        assert(self.pdu.loads@ =~= spec_shed_all(before_shed));
                        lemma_roles_preserved(before_shed, self.pdu.loads@, self.roles);
                    }
                    let new_demand = self.pdu.get_total_demand_uw();
                    if generated < new_demand {
                        let new_deficit = new_demand - generated;
                        let _retry = self.battery.discharge(new_deficit, duration_mh);
                        if self.battery.state == BatteryState::Empty {
                            self.set_satellite_mode(SatelliteOperationalMode::SafeMode);
                        }
                    }
                }
            }
        }
        let soc = self.battery.get_soc_percentage();
        let end_demand = self.pdu.get_total_demand_uw();
        proof {
            assert(self.model() =~= mt);
        }
        TickTelemetry {
            mode: self.current_mode,
            generated_uw: generated,
            demanded_uw: demanded,
            battery_soc_pct: soc,
            battery_state: self.battery.state,
            total_demand_uw: end_demand,
        }
    }
}

} // verus!

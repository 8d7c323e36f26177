//! Solar panel model: converts illumination into electrical output, subject
//! to deployment state and long-term degradation.

use vstd::prelude::*;

use crate::consts::{MAX_AREA_CM2, MAX_INTENSITY_W_M2, MAX_POWER_UW, PER_MILLE};

verus! {

/// A solar panel with fixed geometry and a derived instantaneous output.
#[derive(Clone, Debug)]
pub struct SolarPanel {
    pub id: u32,
    /// Collecting area in square centimetres.
    pub area_cm2: u64,
    /// Conversion efficiency in per-mille of incident power.
    pub efficiency_pm: u64,
    /// Instantaneous output in microwatts; derived, zero while stowed.
    pub current_power_output_uw: u64,
    pub is_deployed: bool,
    /// Long-term degradation factor in per-mille; 1000 when pristine.
    pub degradation_pm: u64,
}

/// Output in microwatts of a deployed panel under the given illumination:
/// `area x efficiency x intensity x angle x degradation`, with the scale
/// factors of the five fixed-point units folded into one divisor.
pub open spec fn panel_output(
    area_cm2: int,
    efficiency_pm: int,
    intensity_w_m2: int,
    angle_pm: int,
    degradation_pm: int,
) -> int {
    area_cm2 * efficiency_pm * intensity_w_m2 * angle_pm * degradation_pm / 10_000_000
}

/// Bounds on `panel_output` and its partial products, for overflow-freedom
/// and for the panel's well-formedness.
pub proof fn lemma_panel_output_bounds(
    area_cm2: int,
    efficiency_pm: int,
    intensity_w_m2: int,
    angle_pm: int,
    degradation_pm: int,
)
    requires
        0 <= area_cm2 <= MAX_AREA_CM2,
        0 <= efficiency_pm <= PER_MILLE,
        0 <= intensity_w_m2 <= MAX_INTENSITY_W_M2,
        0 <= angle_pm <= PER_MILLE,
        0 <= degradation_pm <= PER_MILLE,
    ensures
        0 <= area_cm2 * efficiency_pm <= 1_000_000_000,
        0 <= area_cm2 * efficiency_pm * intensity_w_m2 <= 10_000_000_000_000,
        0 <= area_cm2 * efficiency_pm * intensity_w_m2 * angle_pm <= 10_000_000_000_000_000,
        0 <= area_cm2 * efficiency_pm * intensity_w_m2 * angle_pm * degradation_pm
            <= 10_000_000_000_000_000_000,
        0 <= panel_output(area_cm2, efficiency_pm, intensity_w_m2, angle_pm, degradation_pm)
            <= MAX_POWER_UW,
{
    let p1 = area_cm2 * efficiency_pm;
    let p2 = p1 * intensity_w_m2;
    let p3 = p2 * angle_pm;
    let p4 = p3 * degradation_pm;
    vstd::arithmetic::mul::lemma_mul_nonnegative(area_cm2, efficiency_pm);
    vstd::arithmetic::mul::lemma_mul_upper_bound(area_cm2, MAX_AREA_CM2 as int, efficiency_pm, PER_MILLE as int);
    vstd::arithmetic::mul::lemma_mul_nonnegative(p1, intensity_w_m2);
    vstd::arithmetic::mul::lemma_mul_upper_bound(p1, 1_000_000_000, intensity_w_m2, MAX_INTENSITY_W_M2 as int);
    vstd::arithmetic::mul::lemma_mul_nonnegative(p2, angle_pm);
    vstd::arithmetic::mul::lemma_mul_upper_bound(p2, 10_000_000_000_000, angle_pm, PER_MILLE as int);
    vstd::arithmetic::mul::lemma_mul_nonnegative(p3, degradation_pm);
    vstd::arithmetic::mul::lemma_mul_upper_bound(p3, 10_000_000_000_000_000, degradation_pm, PER_MILLE as int);
    vstd::arithmetic::div_mod::lemma_div_pos_is_pos(p4, 10_000_000);
    vstd::arithmetic::div_mod::lemma_div_is_ordered(p4, 10_000_000_000_000_000_000, 10_000_000);
    assert(10_000_000_000_000_000_000int / 10_000_000 == 1_000_000_000_000);
}

impl SolarPanel {
    /// Well-formedness: configuration within the crate's size bounds, output
    /// within the power bound, and no output while stowed.
    pub open spec fn wf(self) -> bool {
        &&& self.area_cm2 <= MAX_AREA_CM2
        &&& self.efficiency_pm <= PER_MILLE
        &&& self.degradation_pm <= PER_MILLE
        &&& self.current_power_output_uw <= MAX_POWER_UW
        &&& !self.is_deployed ==> self.current_power_output_uw == 0
    }

    /// A stowed, pristine panel producing no output.
    pub fn new(id: u32, area_cm2: u64, efficiency_pm: u64) -> (r: SolarPanel)
        requires
            area_cm2 <= MAX_AREA_CM2,
            efficiency_pm <= PER_MILLE,
        ensures
            r == (SolarPanel {
                id,
                area_cm2,
                efficiency_pm,
                current_power_output_uw: 0,
                is_deployed: false,
                degradation_pm: PER_MILLE,
            }),
            r.wf(),
    {
        SolarPanel {
            id,
            area_cm2,
            efficiency_pm,
            current_power_output_uw: 0,
            is_deployed: false,
            degradation_pm: PER_MILLE,
        }
    }

    /// Marks the panel deployed; idempotent, touches nothing else.
    pub fn deploy(&mut self)
        ensures
            *final(self) == (SolarPanel { is_deployed: true, ..*old(self) }),
    {
        self.is_deployed = true;
    }

    /// The panel after one `update_power_output` call: output follows the
    /// illumination when deployed, and is zero otherwise.
    pub open spec fn spec_update_power_output(
        self,
        sun_intensity_w_m2: u64,
        angle_modifier_pm: u64,
    ) -> SolarPanel {
        if self.is_deployed {
            SolarPanel {
                current_power_output_uw: panel_output(
                    self.area_cm2 as int,
                    self.efficiency_pm as int,
                    sun_intensity_w_m2 as int,
                    angle_modifier_pm as int,
                    self.degradation_pm as int,
                ) as u64,
                ..self
            }
        } else {
            SolarPanel { current_power_output_uw: 0, ..self }
        }
    }

    /// Re-derives the instantaneous output from the given illumination.
    /// An intensity of zero models eclipse; the angle modifier stands for
    /// pointing/cosine loss.
    pub fn update_power_output(&mut self, sun_intensity_w_m2: u64, angle_modifier_pm: u64)
        requires
            old(self).wf(),
            sun_intensity_w_m2 <= MAX_INTENSITY_W_M2,
            angle_modifier_pm <= PER_MILLE,
        ensures
            *final(self) == old(self).spec_update_power_output(sun_intensity_w_m2, angle_modifier_pm),
            final(self).wf(),
    {
        if self.is_deployed {
            proof {
                lemma_panel_output_bounds(
                    self.area_cm2 as int,
                    self.efficiency_pm as int,
                    sun_intensity_w_m2 as int,
                    angle_modifier_pm as int,
                    self.degradation_pm as int,
                );
            }
            let p1 = self.area_cm2 * self.efficiency_pm;
            let p2 = p1 * sun_intensity_w_m2;
            let p3 = p2 * angle_modifier_pm;
            let p4 = p3 * self.degradation_pm;
            self.current_power_output_uw = p4 / 10_000_000;
        } else {
            self.current_power_output_uw = 0;
        }
    }

    /// Current output in microwatts.
    pub fn get_power_output_uw(&self) -> (r: u64)
        ensures
            r == self.current_power_output_uw,
    {
        self.current_power_output_uw
    }

    /// Lowers the degradation factor by `delta_pm`, saturating at zero;
    /// monotonic, never increases.
    pub fn apply_degradation(&mut self, delta_pm: u64)
        ensures
            *final(self) == (SolarPanel {
                degradation_pm: if delta_pm <= old(self).degradation_pm {
                    (old(self).degradation_pm - delta_pm) as u64
                } else {
                    0
                },
                ..*old(self)
            }),
            final(self).degradation_pm <= old(self).degradation_pm,
    {
        if delta_pm <= self.degradation_pm {
            self.degradation_pm = self.degradation_pm - delta_pm;
        } else {
            self.degradation_pm = 0;
        }
    }
}

} // verus!

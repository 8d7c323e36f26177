//! Switchable loads and the power distribution unit that owns them,
//! aggregates their demand and executes the shedding policy.

use vstd::arithmetic::mul::{lemma_mul_inequality, lemma_mul_nonnegative};
use vstd::prelude::*;

use crate::consts::{MAX_LOADS, MAX_POWER_UW};
use crate::enums::EpsError;

verus! {

/// A switchable power consumer. The identifier and the criticality flag are
/// fixed at creation; only the on/off flag changes.
#[derive(Clone, Copy, Debug)]
pub struct Load {
    pub id: u32,
    /// Draw when switched on, in microwatts.
    pub power_consumption_uw: u64,
    /// A critical load must stay powered except in a terminal fault
    /// condition; shedding never touches it.
    pub is_critical: bool,
    pub is_on: bool,
}

impl Load {
    /// Well-formedness: the configured draw stays within the power bound.
    pub open spec fn wf(self) -> bool {
        self.power_consumption_uw <= MAX_POWER_UW
    }

    /// Demand in microwatts: the configured draw when on, zero when off.
    pub open spec fn spec_power_demand(self) -> int {
        if self.is_on {
            self.power_consumption_uw as int
        } else {
            0
        }
    }

    /// A fresh load, switched off.
    pub fn new(id: u32, power_consumption_uw: u64, is_critical: bool) -> (r: Load)
        requires
            power_consumption_uw <= MAX_POWER_UW,
        ensures
            r == (Load { id, power_consumption_uw, is_critical, is_on: false }),
            r.wf(),
    {
        Load { id, power_consumption_uw, is_critical, is_on: false }
    }

    /// Switches the load on; unconditional.
    pub fn turn_on(&mut self)
        ensures
            *final(self) == (Load { is_on: true, ..*old(self) }),
    {
        self.is_on = true;
    }

    /// Switches the load off; unconditional.
    pub fn turn_off(&mut self)
        ensures
            *final(self) == (Load { is_on: false, ..*old(self) }),
    {
        self.is_on = false;
    }

    /// Demand in microwatts: the configured draw when on, zero when off.
    pub fn get_power_demand_uw(&self) -> (r: u64)
        ensures
            r == self.spec_power_demand(),
    {
        if self.is_on {
            self.power_consumption_uw
        } else {
            0
        }
    }
}

/// Every load in the sequence is well-formed.
pub open spec fn spec_all_loads_wf(s: Seq<Load>) -> bool {
    forall|i: int| 0 <= i < s.len() ==> (#[trigger] s[i]).wf()
}

/// No two loads share an identifier.
pub open spec fn spec_ids_unique(s: Seq<Load>) -> bool {
    forall|i: int, j: int| #![trigger s[i], s[j]] 0 <= i < j < s.len() ==> s[i].id != s[j].id
}

/// Some load in the sequence carries the identifier.
pub open spec fn spec_has_load(s: Seq<Load>, id: u32) -> bool {
    exists|i: int| 0 <= i < s.len() && (#[trigger] s[i]).id == id
}

/// Sum of the loads' demands, in microwatts.
pub open spec fn spec_total_demand(s: Seq<Load>) -> int
    decreases s.len(),
{
    if s.len() == 0 {
        0
    } else {
        spec_total_demand(s.drop_last()) + s.last().spec_power_demand()
    }
}

/// A well-formed load sequence's total demand lies within
/// `0..=len * MAX_POWER_UW`.
pub proof fn lemma_total_demand_bounds(s: Seq<Load>)
    requires
        spec_all_loads_wf(s),
    ensures
        0 <= spec_total_demand(s) <= s.len() * MAX_POWER_UW,
    decreases s.len(),
{
    if s.len() == 0 {
    } else {
        assert(spec_all_loads_wf(s.drop_last()));
        lemma_total_demand_bounds(s.drop_last());
        lemma_mul_nonnegative(s.len() as int - 1, MAX_POWER_UW as int);
        assert((s.len() - 1) * MAX_POWER_UW + MAX_POWER_UW == s.len() * MAX_POWER_UW)
            by (nonlinear_arith);
    }
}

/// One load after a shedding pass: a critical load is untouched, a
/// non-critical one is off.
pub open spec fn spec_shed_one(l: Load) -> Load {
    if l.is_critical {
        l
    } else {
        Load { is_on: false, ..l }
    }
}

/// Power freed by a shedding pass: the summed draw of the loads that were
/// on and not critical, in microwatts.
pub open spec fn spec_shed_power(s: Seq<Load>) -> int
    decreases s.len(),
{
    if s.len() == 0 {
        0
    } else {
        spec_shed_power(s.drop_last()) + if s.last().is_on && !s.last().is_critical {
            s.last().power_consumption_uw as int
        } else {
            0
        }
    }
}

/// The distribution unit: an ordered collection of loads keyed by unique
/// identifiers.
#[derive(Clone, Debug)]
pub struct PowerDistributionUnit {
    pub loads: Vec<Load>,
}

impl PowerDistributionUnit {
    /// Well-formedness: within the size bound, every load well-formed, all
    /// identifiers unique.
    pub open spec fn wf(self) -> bool {
        &&& self.loads@.len() <= MAX_LOADS
        &&& spec_all_loads_wf(self.loads@)
        &&& spec_ids_unique(self.loads@)
    }

    /// An empty distribution unit.
    pub fn new() -> (r: PowerDistributionUnit)
        ensures
            r.loads@ == Seq::<Load>::empty(),
            r.wf(),
    {
        PowerDistributionUnit { loads: Vec::new() }
    }

    /// Whether some load carries the identifier.
    pub fn has_load(&self, id: u32) -> (r: bool)
        ensures
            r == spec_has_load(self.loads@, id),
    {
        let mut i: usize = 0;
        while i < self.loads.len()
            invariant
                0 <= i <= self.loads@.len(),
                forall|j: int| 0 <= j < i ==> (#[trigger] self.loads@[j]).id != id,
            decreases self.loads@.len() - i,
        {
            if self.loads[i].id == id {
                return true;
            }
            i = i + 1;
        }
        false
    }

    /// Registers a load. Fails with `DuplicateId`, leaving the unit
    /// unchanged, exactly when the identifier is already present.
    pub fn add_load(&mut self, load: Load) -> (r: Result<(), EpsError>)
        requires
            old(self).wf(),
            load.wf(),
            old(self).loads@.len() < MAX_LOADS,
        ensures
            final(self).wf(),
            (match r {
                Ok(()) => !spec_has_load(old(self).loads@, load.id) && final(self).loads@
                    == old(self).loads@.push(load),
                Err(e) => e == EpsError::DuplicateId && spec_has_load(old(self).loads@, load.id)
                    && final(self).loads@ == old(self).loads@,
            }),
    {
        if self.has_load(load.id) {
            return Err(EpsError::DuplicateId);
        }
        self.loads.push(load);
        Ok(())
    }

    /// Switches the identified load. Fails with `NotFound`, leaving the
    /// unit unchanged, exactly when no load carries the identifier;
    /// otherwise only that load's on/off flag changes.
    pub fn switch_load(&mut self, load_id: u32, new_state: bool) -> (r: Result<(), EpsError>)
        requires
            old(self).wf(),
        ensures
            final(self).wf(),
            final(self).loads@.len() == old(self).loads@.len(),
            (match r {
                Ok(()) => {
                    &&& spec_has_load(old(self).loads@, load_id)
                    &&& forall|j: int|
                        0 <= j < old(self).loads@.len() && (#[trigger] old(self).loads@[j]).id
                            != load_id ==> final(self).loads@[j] == old(self).loads@[j]
                    &&& forall|j: int|
                        0 <= j < old(self).loads@.len() && (#[trigger] old(self).loads@[j]).id
                            == load_id ==> final(self).loads@[j] == (Load {
                            is_on: new_state,
                            ..old(self).loads@[j]
                        })
                },
                Err(e) => e == EpsError::NotFound && !spec_has_load(old(self).loads@, load_id)
                    && final(self).loads@ == old(self).loads@,
            }),
    {
        let n = self.loads.len();
        let mut i: usize = 0;
        while i < n
            invariant
                0 <= i <= n,
                n == self.loads@.len(),
                old(self).wf(),
                self.loads@ == old(self).loads@,
                forall|j: int| 0 <= j < i ==> (#[trigger] self.loads@[j]).id != load_id,
            decreases n - i,
        {
            if self.loads[i].id == load_id {
                let found = self.loads[i];
                self.loads[i] = Load { is_on: new_state, ..found };
                proof {
                    let ov = old(self).loads@;
                    let lv = self.loads@;
                    assert(forall|j: int| 0 <= j < ov.len() && j != i as int ==> lv[j] == ov[j]);
                    assert(lv[i as int] == (Load { is_on: new_state, ..ov[i as int] }));
                    assert forall|j: int|
                        0 <= j < ov.len() && (#[trigger] ov[j]).id == load_id implies lv[j]
                        == (Load { is_on: new_state, ..ov[j] }) by {
                        if j < i as int {
                            assert(ov[j].id != load_id);
                        } else if j > i as int {
                            assert(ov[i as int].id != ov[j].id);
                        }
                    }
                    assert forall|j: int| 0 <= j < lv.len() implies (#[trigger] lv[j]).wf() by {
                        assert(ov[j].wf());
                    }
                    assert forall|p: int, q: int|
                        #![trigger lv[p], lv[q]]
                        0 <= p < q < lv.len() implies lv[p].id != lv[q].id by {
                        assert(ov[p].id != ov[q].id);
                    }
                }
                return Ok(());
            }
            i = i + 1;
        }
        Err(EpsError::NotFound)
    }

    /// Total demand of all loads, in microwatts.
    pub fn get_total_demand_uw(&self) -> (r: u64)
        requires
            self.wf(),
        ensures
            r == spec_total_demand(self.loads@),
    {
        let n = self.loads.len();
        let mut total: u64 = 0;
        let mut i: usize = 0;
        while i < n
            invariant
                0 <= i <= n,
                n == self.loads@.len(),
                self.wf(),
                total == spec_total_demand(self.loads@.take(i as int)),
                total <= i * MAX_POWER_UW,
            decreases n - i,
        {
            proof {
                assert(self.loads@.take(i as int + 1).drop_last() =~= self.loads@.take(i as int));
                lemma_mul_inequality(i as int + 1, MAX_LOADS as int, MAX_POWER_UW as int);
                lemma_mul_nonnegative(i as int, MAX_POWER_UW as int);
                assert(i * MAX_POWER_UW + MAX_POWER_UW == (i + 1) * MAX_POWER_UW)
                    by (nonlinear_arith);
            }
            total = total + self.loads[i].get_power_demand_uw();
            i = i + 1;
        }
        proof {
            assert(self.loads@.take(n as int) =~= self.loads@);
        }
        total
    }

    /// Turns every non-critical load off and returns the total draw freed
    /// by doing so. Critical loads are never touched.
    pub fn shed_non_critical_loads(&mut self) -> (r: u64)
        requires
            old(self).wf(),
        ensures
            final(self).wf(),
            final(self).loads@.len() == old(self).loads@.len(),
            forall|j: int|
                0 <= j < old(self).loads@.len() ==> final(self).loads@[j] == spec_shed_one(
                    #[trigger] old(self).loads@[j],
                ),
            forall|j: int|
                0 <= j < old(self).loads@.len() && (#[trigger] old(self).loads@[j]).is_critical
                    ==> final(self).loads@[j] == old(self).loads@[j],
            r == spec_shed_power(old(self).loads@),
    {
        let n = self.loads.len();
        let mut shed: u64 = 0;
        let mut i: usize = 0;
        while i < n
            invariant
                0 <= i <= n,
                n == self.loads@.len(),
                n == old(self).loads@.len(),
                old(self).wf(),
                self.wf(),
                forall|j: int|
                    0 <= j < i ==> self.loads@[j] == spec_shed_one(#[trigger] old(self).loads@[j]),
                forall|j: int| i <= j < n ==> self.loads@[j] == old(self).loads@[j],
                shed == spec_shed_power(old(self).loads@.take(i as int)),
                shed <= i * MAX_POWER_UW,
            decreases n - i,
        {
            proof {
                assert(old(self).loads@.take(i as int + 1).drop_last() =~= old(self).loads@.take(
                    i as int,
                ));
                lemma_mul_inequality(i as int + 1, MAX_LOADS as int, MAX_POWER_UW as int);
                lemma_mul_nonnegative(i as int, MAX_POWER_UW as int);
                assert(i * MAX_POWER_UW + MAX_POWER_UW == (i + 1) * MAX_POWER_UW)
                    by (nonlinear_arith);
            }
            let l = self.loads[i];
            if l.is_on && !l.is_critical {
                self.loads[i] = Load { is_on: false, ..l };
                shed = shed + l.power_consumption_uw;
            }
            i = i + 1;
        }
        proof {
            assert(old(self).loads@.take(n as int) =~= old(self).loads@);
        }
        shed
    }
}

} // verus!

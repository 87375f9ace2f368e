//! Business agents that stand alone in a cell, outside any building, with
//! an optional photovoltaic plant.
use vstd::prelude::*;
use crate::agent::{AgentType, MAX_COC, MAX_SLP, DEMAND_FACTOR_HIGH, DEMAND_FACTOR_LOW, profile_index};
use crate::pv::{PV, MAX_IRRADIANCE, MAX_PV_AREA};
use crate::random::draw_between;
use crate::units::PER_MILLE;

verus! {

/// A standalone business agent.
#[derive(Debug, Clone, Copy)]
pub struct SepBSLagent {
    a_type: AgentType,
    coc: i64,
    demand_apv: i64,
    pv: Option<PV>,
}

/// Generation (W) of `a`'s plant at global irradiance `eg`, zero without one.
pub open spec fn sep_generation(a: SepBSLagent, eg: int) -> int {
    match a.plant() {
        Some(p) => p.area() * eg / 1000,
        None => 0,
    }
}

/// Load (W) of `a` for load profile values `slp` and demand factor `f` (per mille).
pub open spec fn sep_load(a: SepBSLagent, slp: [i64; 3], f: int) -> int {
    slp[profile_index(a.kind())] * f / 1000
}

impl SepBSLagent {
    /// Agent type.
    pub closed spec fn kind(&self) -> AgentType {
        self.a_type
    }

    /// Consumption factor, per mille.
    pub closed spec fn coc_spec(&self) -> int {
        self.coc as int
    }

    /// The photovoltaic plant.
    pub closed spec fn plant(&self) -> Option<PV> {
        self.pv
    }

    /// A business type, factors in range, plant well formed.
    pub open spec fn wf(&self) -> bool {
        &&& self.kind() != AgentType::Household
        &&& 1000 <= self.coc_spec() <= MAX_COC
        &&& (self.plant() matches Some(p) ==> p.wf())
    }

    /// A standalone agent of a business type with consumption factor `coc`
    /// and photovoltaic-demand factor `demand_apv` (per mille); a factor
    /// below one counts as one. `None` for a household, or where a factor is
    /// out of range.
    pub fn new(a_type: AgentType, coc: i64, demand_apv: i64) -> (r: Option<SepBSLagent>)
        ensures
            r is Some <==> (a_type != AgentType::Household && coc <= MAX_COC && 0 <= demand_apv <= PER_MILLE),
            r matches Some(a) ==> a.wf() && a.kind() == a_type && a.plant() is None,
    {
        if a_type == AgentType::Household || coc > MAX_COC || demand_apv < 0 || demand_apv > PER_MILLE {
            return None;
        }
        let coc = if coc < 1000 {
            1000
        } else {
            coc
        };
        Some(SepBSLagent { a_type, coc, demand_apv, pv: None })
    }

    /// Consumption factor, per mille.
    pub fn coc(&self) -> (r: i64)
        ensures
            r == self.coc_spec(),
    {
        self.coc
    }

    /// Installs a photovoltaic plant; false, and nothing changed, where one is installed.
    pub fn add_pv(&mut self, pv: PV) -> (r: bool)
        requires
            old(self).wf(),
            pv.wf(),
        ensures
            final(self).wf(),
            r == old(self).plant() is None,
            r ==> final(self).plant() == Some(pv),
            !r ==> *final(self) == *old(self),
    {
        if self.pv.is_none() {
            self.pv = Some(pv);
            true
        } else {
            false
        }
    }

    /// One step with load profile values `slp` (W), global irradiance `eg`
    /// and demand factor `f` (per mille); returns `(generation, load)` in W.
    pub fn step_with(&self, slp: [i64; 3], eg: i64, f: i64) -> (r: (i64, i64))
        requires
            self.wf(),
            forall|i: int| 0 <= i < 3 ==> 0 <= #[trigger] slp[i] <= MAX_SLP,
            0 <= eg <= MAX_IRRADIANCE,
            DEMAND_FACTOR_LOW <= f <= DEMAND_FACTOR_HIGH,
        ensures
            r.0 == (match self.plant() { Some(p) => p.area() * eg / 1000, None => 0 }),
            r.1 == slp[profile_index(self.kind())] * f / 1000,
            0 <= r.0 <= MAX_PV_AREA * MAX_IRRADIANCE / 1000,
            0 <= r.1 <= MAX_SLP * 2,
    {
        let s = match self.a_type {
            AgentType::Household => slp[0],
            AgentType::Agriculture => slp[1],
            AgentType::Business => slp[2],
        };
        assert(0 <= s * f <= MAX_SLP * DEMAND_FACTOR_HIGH) by (nonlinear_arith)
            requires 0 <= s <= MAX_SLP, 0 <= f <= DEMAND_FACTOR_HIGH;
        let generation = match &self.pv {
            Some(p) => p.step(eg),
            None => 0,
        };
        (generation, s * f / 1000)
    }

    /// One step with the demand factor drawn in `[0.8, 1.2]`; see [`SepBSLagent::step_with`].
    pub fn step(&self, slp: [i64; 3], eg: i64) -> (r: (i64, i64))
        requires
            self.wf(),
            forall|i: int| 0 <= i < 3 ==> 0 <= #[trigger] slp[i] <= MAX_SLP,
            0 <= eg <= MAX_IRRADIANCE,
        ensures
            r.0 == sep_generation(*self, eg as int),
            exists|f: int| DEMAND_FACTOR_LOW <= f <= DEMAND_FACTOR_HIGH && r.1 == #[trigger] sep_load(*self, slp, f),
            0 <= r.0 <= MAX_PV_AREA * MAX_IRRADIANCE / 1000,
            0 <= r.1 <= MAX_SLP * 2,
    {
        let f = draw_between(DEMAND_FACTOR_LOW as u64, DEMAND_FACTOR_HIGH as u64) as i64;
        let r = self.step_with(slp, eg, f);
        assert(r.1 == sep_load(*self, slp, f as int));
        r
    }
}

} // verus!

//! Consumers living or working in a building: their electrical and hot-water demand.
use vstd::prelude::*;
use crate::units::PER_MILLE;
use crate::random::draw_between;

verus! {

/// Lowest and highest consumption factor (per mille) of an agent.
pub const MIN_COC: i64 = 1000;
pub const MAX_COC: i64 = 100_000;

/// Largest standard-load-profile value (W) for a consumption factor of one.
pub const MAX_SLP: i64 = 1_000_000;

/// Largest hot-water profile factor, per mille.
pub const MAX_HW_PROFILE: i64 = 100_000;

/// Lowest and highest random factor (per mille) on each step's demand.
pub const DEMAND_FACTOR_LOW: i64 = 800;
pub const DEMAND_FACTOR_HIGH: i64 = 1200;

/// Largest electrical or hot-water demand (W) of one agent in one step.
pub const MAX_AGENT_DEMAND: i64 = 200_000_000;

/// Kind of agent, selecting its standard load profile.
#[derive(Debug, Clone, Copy, PartialEq, Eq, Structural)]
pub enum AgentType {
    Household,
    Agriculture,
    Business,
}

/// An agent with its consumption factor, photovoltaic-demand factor and mean
/// hot-water demand.
#[derive(Debug, Clone, Copy)]
pub struct Agent {
    a_type: AgentType,
    coc: i64,
    demand_apv: i64,
    hw_demand: i64,
}

/// Mean hot-water demand (W) of an agent with consumption factor `coc` (per
/// mille): `(684.7 coc + 314.4) kWh` a year spread over 8760 hours.
pub open spec fn hot_water_demand_spec(coc: int) -> int {
    (6847 * coc + 3_144_000) / 87600
}

/// Index of the load profile an agent type reads.
pub open spec fn profile_index(a: AgentType) -> int {
    match a {
        AgentType::Household => 0,
        AgentType::Agriculture => 1,
        AgentType::Business => 2,
    }
}

/// Electrical demand (W) of `a` for load profile values `slp` and random factor `f` (per mille).
pub open spec fn agent_e(a: Agent, slp: [i64; 3], f: int) -> int {
    a.coc_spec() * slp[profile_index(a.kind())] * f / 1_000_000
}

/// Hot-water demand (W) of `a` for hot-water profile factor `hw_profile` and
/// random factor `f` (both per mille).
pub open spec fn agent_hw(a: Agent, hw_profile: int, f: int) -> int {
    a.hw_spec() * f * hw_profile / 1_000_000
}

impl Agent {
    /// Agent type.
    pub closed spec fn kind(&self) -> AgentType {
        self.a_type
    }

    /// Consumption factor, per mille.
    pub closed spec fn coc_spec(&self) -> int {
        self.coc as int
    }

    /// Photovoltaic-demand factor, per mille.
    pub closed spec fn apv_spec(&self) -> int {
        self.demand_apv as int
    }

    /// Mean hot-water demand, W.
    pub closed spec fn hw_spec(&self) -> int {
        self.hw_demand as int
    }

    /// Factors in range, hot-water demand derived from the consumption factor.
    pub open spec fn wf(&self) -> bool {
        &&& MIN_COC <= self.coc_spec() <= MAX_COC
        &&& 0 <= self.apv_spec() <= PER_MILLE
        &&& self.hw_spec() == hot_water_demand_spec(self.coc_spec())
    }

    /// Creates an agent with consumption factor `coc` and photovoltaic-demand
    /// factor `demand_apv` (per mille); a factor below one counts as one.
    /// `None` where `coc` is above 100 or `demand_apv` outside `[0, 1000]`.
    pub fn new(a_type: AgentType, coc: i64, demand_apv: i64) -> (r: Option<Agent>)
        ensures
            r is Some <==> (coc <= MAX_COC && 0 <= demand_apv <= PER_MILLE),
            r matches Some(a) ==> a.wf() && a.kind() == a_type && a.apv_spec() == demand_apv
                && a.coc_spec() == (if coc < MIN_COC { MIN_COC as int } else { coc as int }),
    {
        if coc > MAX_COC || demand_apv < 0 || demand_apv > PER_MILLE {
            return None;
        }
        let coc = if coc < MIN_COC {
            MIN_COC
        } else {
            coc
        };
        Some(Agent { a_type, coc, demand_apv, hw_demand: (6847 * coc + 3_144_000) / 87600 })
    }

    /// Replaces the consumption factor (per mille, at least one) and the
    /// hot-water demand derived from it; returns false and changes nothing
    /// where the factor is out of range.
    pub fn overwrite_coc(&mut self, new_coc: i64) -> (r: bool)
        requires
            old(self).wf(),
        ensures
            r == (MIN_COC <= new_coc <= MAX_COC),
            final(self).wf(),
            r ==> final(self).coc_spec() == new_coc,
            !r ==> *final(self) == *old(self),
            final(self).kind() == old(self).kind(),
            final(self).apv_spec() == old(self).apv_spec(),
    {
        if new_coc < MIN_COC || new_coc > MAX_COC {
            return false;
        }
        self.coc = new_coc;
        self.hw_demand = (6847 * new_coc + 3_144_000) / 87600;
        true
    }

    /// Consumption factor, per mille.
    pub fn coc(&self) -> (r: i64)
        ensures
            r == self.coc_spec(),
    {
        self.coc
    }

    /// Photovoltaic-demand factor, per mille.
    pub fn demand_apv(&self) -> (r: i64)
        ensures
            r == self.apv_spec(),
    {
        self.demand_apv
    }

    /// Mean hot-water demand, W.
    pub fn get_yearly_hot_water_demand(&self) -> (r: i64)
        ensures
            r == self.hw_spec(),
    {
        self.hw_demand
    }

    /// Demand of one step for load profile values `slp` (W at a consumption
    /// factor of one), hot-water profile factor `hw_profile` and random
    /// factors `f_e`, `f_hw` (all per mille); returns `(electrical, hot water)` in W.
    pub fn step_with(&self, slp: [i64; 3], hw_profile: i64, f_e: i64, f_hw: i64) -> (r: (i64, i64))
        requires
            self.wf(),
            forall|i: int| 0 <= i < 3 ==> 0 <= #[trigger] slp[i] <= MAX_SLP,
            0 <= hw_profile <= MAX_HW_PROFILE,
            DEMAND_FACTOR_LOW <= f_e <= DEMAND_FACTOR_HIGH,
            DEMAND_FACTOR_LOW <= f_hw <= DEMAND_FACTOR_HIGH,
        ensures
            r.0 == self.coc_spec() * slp[profile_index(self.kind())] * f_e / 1_000_000,
            r.1 == self.hw_spec() * f_hw * hw_profile / 1_000_000,
            0 <= r.0 <= MAX_AGENT_DEMAND,
            0 <= r.1 <= MAX_AGENT_DEMAND,
    {
        let s = match self.a_type {
            AgentType::Household => slp[0],
            AgentType::Agriculture => slp[1],
            AgentType::Business => slp[2],
        };
        assert(0 <= self.coc * s * f_e <= MAX_COC * MAX_SLP * DEMAND_FACTOR_HIGH) by (nonlinear_arith)
            requires 0 <= self.coc <= MAX_COC, 0 <= s <= MAX_SLP, 0 <= f_e <= DEMAND_FACTOR_HIGH;
        assert(0 <= self.coc * s <= MAX_COC * MAX_SLP) by (nonlinear_arith)
            requires 0 <= self.coc <= MAX_COC, 0 <= s <= MAX_SLP;
        assert(0 <= self.hw_demand <= 8000);
        assert(0 <= self.hw_demand * f_hw <= 8000 * DEMAND_FACTOR_HIGH) by (nonlinear_arith)
            requires 0 <= self.hw_demand <= 8000, 0 <= f_hw <= DEMAND_FACTOR_HIGH;
        assert(0 <= self.hw_demand * f_hw * hw_profile <= 8000 * DEMAND_FACTOR_HIGH * MAX_HW_PROFILE) by (nonlinear_arith)
            requires 0 <= self.hw_demand <= 8000, 0 <= hw_profile <= MAX_HW_PROFILE, 0 <= f_hw <= DEMAND_FACTOR_HIGH;
        (self.coc * s * f_e / 1_000_000, self.hw_demand * f_hw * hw_profile / 1_000_000)
    }

    /// Demand of one step with both random factors drawn in `[0.8, 1.2]`;
    /// see [`Agent::step_with`].
    pub fn step(&self, slp: [i64; 3], hw_profile: i64) -> (r: (i64, i64))
        requires
            self.wf(),
            forall|i: int| 0 <= i < 3 ==> 0 <= #[trigger] slp[i] <= MAX_SLP,
            0 <= hw_profile <= MAX_HW_PROFILE,
        ensures
            exists|f_e: int, f_hw: int|
                #![trigger agent_e(*self, slp, f_e), agent_hw(*self, hw_profile as int, f_hw)]
                DEMAND_FACTOR_LOW <= f_e <= DEMAND_FACTOR_HIGH && DEMAND_FACTOR_LOW <= f_hw <= DEMAND_FACTOR_HIGH
                    && r.0 == agent_e(*self, slp, f_e) && r.1 == agent_hw(*self, hw_profile as int, f_hw),
            0 <= r.0 <= MAX_AGENT_DEMAND,
            0 <= r.1 <= MAX_AGENT_DEMAND,
    {
        let f_e = draw_between(DEMAND_FACTOR_LOW as u64, DEMAND_FACTOR_HIGH as u64) as i64;
        let f_hw = draw_between(DEMAND_FACTOR_LOW as u64, DEMAND_FACTOR_HIGH as u64) as i64;
        let r = self.step_with(slp, hw_profile, f_e, f_hw);
        assert(r.0 == agent_e(*self, slp, f_e as int) && r.1 == agent_hw(*self, hw_profile as int, f_hw as int));
        r
    }
}

} // verus!

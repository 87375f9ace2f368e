//! A building: its agents, a single-capacitance thermal envelope with a
//! bang-bang space-heating controller, an optional heating system and an
//! optional photovoltaic plant.
use vstd::prelude::*;
use crate::units::{MAX_QUANTITY, floor_div};
use crate::agent::{Agent, MAX_AGENT_DEMAND, MAX_HW_PROFILE, MAX_SLP, DEMAND_FACTOR_HIGH, DEMAND_FACTOR_LOW, agent_e, agent_hw};
use crate::chp_system::{BuildingChpSystem, chp_step_spec};
use crate::heatpump_system::{BuildingHeatpumpSystem, hp_step_spec};
use crate::pv::{PV, MAX_IRRADIANCE, MAX_PV_AREA};

verus! {

/// Largest resulting transmission coefficient of an envelope, mW per kelvin.
pub const MAX_TRANSMISSION: i64 = 10_000_000_000;

/// Largest effective heat capacity of an envelope, Wh per kelvin.
pub const MAX_HEAT_CAPACITY: i64 = 100_000_000;

/// Largest number of agents in a building.
pub const MAX_AGENTS: u32 = 1000;

/// Largest area (square metres), U-value (mW per square metre and kelvin),
/// volume (cubic metres) and air exchange rate (thousandths per hour) of a building.
pub const MAX_AREA: i64 = 1_000_000;
pub const MAX_U_VALUE: i64 = 100_000;
pub const MAX_VOLUME: i64 = 10_000_000;
pub const MAX_AIR_EXCHANGE: i64 = 100_000;

/// Heat capacity of air, in units of 1e-4 Wh per cubic metre and kelvin.
pub const AIR_HEAT_CAPACITY: i64 = 3378;

/// Set-point and initial temperatures, hundredths of a degree.
pub const NOMINAL_TEMPERATURE: i16 = 2000;
pub const INITIAL_HEAT_LIMIT: i16 = 1500;

/// Bounds of the heat-limit temperature and its offset, hundredths of a degree.
pub const HEAT_LIMIT_LOW: i64 = 950;
pub const HEAT_LIMIT_HIGH: i64 = 1700;
pub const HEAT_LIMIT_OFFSET: i64 = 1034;

/// Largest space-heating request of a building, W.
pub const MAX_REQUEST: i64 = 300_000_000_000;

/// Largest heat input into an envelope in one step, W.
pub const MAX_HEAT_INPUT: i128 = 10_000_000_000_000_000_000;

/// Largest summed demand of a building's agents, W.
pub const MAX_BUILDING_LOAD: i64 = 200_000_000_000;

/// Offset that keeps temperatures positive in divisions, hundredths of a degree.
pub const TEMPERATURE_OFFSET: i64 = 40_000;

/// Weather of one step.
#[derive(Debug, Clone, Copy)]
pub struct AmbientParameters {
    /// Outdoor temperature, hundredths of a degree.
    pub t_out: i16,
    /// Mean outdoor temperature of the day, hundredths of a degree.
    pub t_mean_day: i16,
    /// Global irradiance, W per square metre.
    pub irradiation_glob: i64,
    /// Irradiance on vertical surfaces facing south, west, north and east, W per square metre.
    pub specific_gains: [i64; 4],
    /// Wind speed at 10 m, centimetres per second.
    pub wind_speed: i64,
}

impl AmbientParameters {
    /// Weather of one step; see the fields.
    pub fn new(t_out: i16, t_mean_day: i16, irradiation_glob: i64, specific_gains: [i64; 4], wind_speed: i64) -> (r: AmbientParameters)
        ensures
            r == (AmbientParameters { t_out, t_mean_day, irradiation_glob, specific_gains, wind_speed }),
    {
        AmbientParameters { t_out, t_mean_day, irradiation_glob, specific_gains, wind_speed }
    }

    /// All values: outdoor temperature, daily mean, global irradiance, the
    /// four facade irradiances and the wind speed.
    pub fn get_values(&self) -> (r: (i16, i16, i64, [i64; 4], i64))
        ensures
            r == (self.t_out, self.t_mean_day, self.irradiation_glob, self.specific_gains, self.wind_speed),
    {
        (self.t_out, self.t_mean_day, self.irradiation_glob, self.specific_gains, self.wind_speed)
    }

    /// Irradiances within `[0, 10000]` W per square metre, wind speed within `[0, 100]` m/s.
    pub open spec fn wf(&self) -> bool {
        &&& 0 <= self.wind_speed <= crate::wind::MAX_WIND_SPEED
        &&& 0 <= self.irradiation_glob <= MAX_IRRADIANCE
        &&& forall|i: int| 0 <= i < 4 ==> 0 <= #[trigger] self.specific_gains[i] <= MAX_IRRADIANCE
    }
}

/// The heating system installed in a building.
#[derive(Debug, Clone, Copy)]
pub enum HeatingSystem {
    Chp(BuildingChpSystem),
    Heatpump(BuildingHeatpumpSystem),
}

impl HeatingSystem {
    /// The installed system is well formed.
    pub open spec fn wf(&self) -> bool {
        match self {
            HeatingSystem::Chp(s) => s.wf(),
            HeatingSystem::Heatpump(s) => s.wf(),
        }
    }

    /// Storage losses of the last step, W.
    pub open spec fn losses(&self) -> int {
        match self {
            HeatingSystem::Chp(s) => s.losses(),
            HeatingSystem::Heatpump(s) => s.losses(),
        }
    }

    /// Storage losses of the last step, W.
    pub fn get_losses(&self) -> (r: i64)
        ensures
            r == self.losses(),
    {
        match self {
            HeatingSystem::Chp(s) => s.get_losses(),
            HeatingSystem::Heatpump(s) => s.get_losses(),
        }
    }

    /// Runs the installed system for one step; returns `(electrical power,
    /// thermal power supplied)` in W.
    pub fn step(&mut self, heating_demand: i64, hot_water_demand: i64, t_out: i16, t_heat_lim: i16, t_out_mean: i16) -> (r: (i64, i64))
        requires
            old(self).wf(),
            0 <= heating_demand <= MAX_QUANTITY,
            0 <= hot_water_demand <= MAX_QUANTITY,
        ensures
            final(self).wf(),
            heating_step_spec(*old(self), *final(self), heating_demand as int, hot_water_demand as int, t_out as int,
                t_heat_lim as int, t_out_mean as int, r.0 as int, r.1 as int),
            -(MAX_QUANTITY * 4_000_000) <= r.0 <= MAX_QUANTITY * 4_000_000,
            -(MAX_QUANTITY * 4_000_000) <= r.1 <= MAX_QUANTITY * 4_000_003,
            0 <= final(self).losses() <= 4 * MAX_QUANTITY,
    {
        match self {
            HeatingSystem::Chp(s) => s.step(heating_demand, hot_water_demand, t_heat_lim, t_out_mean),
            HeatingSystem::Heatpump(s) => s.step(heating_demand, hot_water_demand, t_out, t_heat_lim, t_out_mean),
        }
    }
}

/// One step of an installed heating system from `h0` to `h1`, returning
/// electrical power `e` and thermal power supplied `t`: the step of its kind.
pub open spec fn heating_step_spec(
    h0: HeatingSystem,
    h1: HeatingSystem,
    heating_demand: int,
    hot_water_demand: int,
    t_out: int,
    t_heat_lim: int,
    t_out_mean: int,
    e: int,
    t: int,
) -> bool {
    match h0 {
        HeatingSystem::Chp(s0) => h1 matches HeatingSystem::Chp(s1) && chp_step_spec(
            s0,
            s1,
            heating_demand,
            hot_water_demand,
            t_heat_lim,
            t_out_mean,
            e,
            t,
        ),
        HeatingSystem::Heatpump(s0) => h1 matches HeatingSystem::Heatpump(s1) && hp_step_spec(
            s0,
            s1,
            heating_demand,
            hot_water_demand,
            t_out,
            t_heat_lim,
            t_out_mean,
            e,
            t,
        ),
    }
}

/// Demand handed to an installed system: the request less the system's
/// last storage losses, never negative.
pub open spec fn system_demand(request: int, losses: int) -> int {
    if request > losses { request - losses } else { 0 }
}

/// How a building's heat is supplied in one step, the slot going from `h0`
/// to `h1`, with electrical power `e` and thermal power `t` of the supply:
/// without a system the request and the hot-water demand come from outside;
/// with one, the system is stepped with [`system_demand`].
pub open spec fn heat_supply(
    h0: Option<HeatingSystem>,
    h1: Option<HeatingSystem>,
    request: int,
    load_hw: int,
    t_out: int,
    t_heat_lim: int,
    t_out_mean: int,
    e: int,
    t: int,
) -> bool {
    match h0 {
        None => h1 is None && e == 0 && t == request + load_hw,
        Some(s0) => h1 matches Some(s1) && heating_step_spec(
            s0,
            s1,
            system_demand(request, s0.losses()),
            load_hw,
            t_out,
            t_heat_lim,
            t_out_mean,
            e,
            t,
        ),
    }
}

/// One step of a building from `b0` to `b1` with the agents' summed loads
/// `load_e`, `load_hw` (W) and weather `amb`, returning `r`; see
/// [`Building::step_with_loads`].
pub open spec fn building_step_spec(b0: Building, b1: Building, load_e: int, load_hw: int, amb: AmbientParameters, r: (i64, i64, i64, i64)) -> bool {
    let gains = load_e + solar_gains_spec(b0.windows(), b0.solar_factor(), amb.specific_gains);
    let req = request_spec(b0.transmission(), b0.heat_capacity(), b0.temperature_spec(), amb.t_out as int, gains);
    let pv = match b0.plant() { Some(p) => p.area() * amb.irradiation_glob / 1000, None => 0 };
    &&& b1.mean_outside() == mean_update_spec(b0.mean_outside(), amb.t_out as int)
    &&& b1.agents_spec() == b0.agents_spec()
    &&& b1.plant() == b0.plant()
    &&& b1.at_dhn() == b0.at_dhn()
    &&& b1.heat_limit() == b0.heat_limit()
    &&& b1.transmission() == b0.transmission()
    &&& b1.heat_capacity() == b0.heat_capacity()
    &&& b1.windows() == b0.windows()
    &&& b1.solar_factor() == b0.solar_factor()
    &&& b1.norm_load() == b0.norm_load()
    &&& b1.max_agents() == b0.max_agents()
    &&& b1.living_space() == b0.living_space()
    &&& b1.self_supplied() == b0.self_supplied()
    &&& r.2 == 0
    &&& exists|e: int, t: int| #[trigger] heat_supply(b0.system(), b1.system(), req, load_hw, amb.t_out as int, b0.heat_limit(), b1.mean_outside(), e, t)
        && r.0 == pv + (if e > 0 { e } else { 0 })
        && r.1 == load_e + (if e < 0 { -e } else { 0 })
        && r.3 == (if b0.at_dhn() { t } else { 0 })
        && b1.temperature_spec() == envelope_spec(b0.transmission(), b0.heat_capacity(), b0.temperature_spec(), amb.t_out as int, gains + t - load_hw)
}

/// `le` and `lh` (W) are the summed electrical and hot-water demands of the
/// first `n` agents for some random factors in `[800, 1200]` per mille each.
pub open spec fn agent_loads(agents: Seq<Agent>, slp: [i64; 3], hw_profile: int, n: nat, le: int, lh: int) -> bool
    decreases n,
{
    if n == 0 {
        le == 0 && lh == 0
    } else {
        exists|f_e: int, f_hw: int|
            #![trigger agent_e(agents[n - 1], slp, f_e), agent_hw(agents[n - 1], hw_profile, f_hw)]
            DEMAND_FACTOR_LOW <= f_e <= DEMAND_FACTOR_HIGH && DEMAND_FACTOR_LOW <= f_hw <= DEMAND_FACTOR_HIGH
                && agent_loads(agents, slp, hw_profile, (n - 1) as nat, le - agent_e(agents[n - 1], slp, f_e), lh - agent_hw(agents[n - 1], hw_profile, f_hw))
    }
}

/// Summed consumption factors (per mille) of the first `n` agents.
pub open spec fn coc_sum(agents: Seq<Agent>, n: nat) -> int
    decreases n,
{
    if n == 0 { 0 } else { coc_sum(agents, (n - 1) as nat) + agents[n - 1].coc_spec() }
}

/// Summed photovoltaic-demand factors (per mille) of the first `n` agents.
pub open spec fn apv_sum(agents: Seq<Agent>, n: nat) -> int
    decreases n,
{
    if n == 0 { 0 } else { apv_sum(agents, (n - 1) as nat) + agents[n - 1].apv_spec() }
}

/// Why a building cannot be built.
#[derive(Debug, Clone, Copy, PartialEq, Eq, Structural)]
pub enum BuildingError {
    /// No agent may live in it, or too many.
    Agents,
    /// Living space not positive or too large.
    LivingSpace,
    /// Fewer than two areas (the second is the windows), or an area or
    /// U-value negative or too large.
    Areas,
    /// The U-value offset is not positive or too large.
    UValueOffset,
    /// An air exchange rate is negative or too large.
    AirExchange,
    /// The volume is negative or too large.
    Volume,
    /// The solar factor lies outside `[0, 1000]` per mille.
    SolarFactor,
    /// The heat capacity is not positive or too large.
    HeatCapacity,
    /// The resulting transmission coefficient is too large.
    Transmission,
}

/// Why a component cannot be installed.
#[derive(Debug, Clone, Copy, PartialEq, Eq, Structural)]
pub enum InstallError {
    /// The slot is taken: one heating system, one plant per building.
    Occupied,
    /// The building holds its largest number of agents.
    Full,
    /// No agent at that position.
    NoSuchAgent,
    /// No component could be designed for the building.
    Design,
}

/// A building.
#[derive(Debug)]
pub struct Building {
    agents: Vec<Agent>,
    n_max_agents: u32,
    a_living: i64,
    window_area: i64,
    res_u_trans: i64,
    cp_eff: i64,
    g: i64,
    temperature: i16,
    heat_lim_temperature: i16,
    mean_outside_temperature: i16,
    is_at_dhn: bool,
    is_self_supplied_t: bool,
    q_hln: i64,
    pv: Option<PV>,
    heating_system: Option<HeatingSystem>,
    last_step: (i64, i64, i64, i64),
}

/// Sum of `a_i * (u_i + delta_u)` over the first `n` areas.
pub open spec fn transmission_sum(areas_uv: Seq<(i64, i64)>, delta_u: int, n: nat) -> int
    decreases n,
{
    if n == 0 {
        0
    } else {
        transmission_sum(areas_uv, delta_u, (n - 1) as nat) + areas_uv[n - 1].0 * (areas_uv[n - 1].1 + delta_u)
    }
}

/// Resulting transmission coefficient (mW per kelvin): transmission through
/// all areas plus air renewal.
pub open spec fn transmission_spec(areas_uv: Seq<(i64, i64)>, delta_u: int, volume: int, n_inf: int, n_vent: int) -> int {
    transmission_sum(areas_uv, delta_u, areas_uv.len()) + volume * AIR_HEAT_CAPACITY * (n_inf + n_vent) / 10_000
}

/// Norm heating load (W) of an envelope of transmission `res_u` (mW per
/// kelvin) at norm outdoor temperature `t_out_n`.
pub open spec fn norm_heating_load(res_u: int, t_out_n: int) -> int {
    res_u * (NOMINAL_TEMPERATURE - t_out_n) / 100_000
}

/// Heat-limit temperature: `0.05 q_hln / a_living + 10.34` degrees within `[9.5, 17]`.
pub open spec fn heat_limit_spec(q_hln: int, a_living: int) -> int {
    let t = 5 * q_hln / a_living + HEAT_LIMIT_OFFSET;
    if t < HEAT_LIMIT_LOW { HEAT_LIMIT_LOW as int } else if t > HEAT_LIMIT_HIGH { HEAT_LIMIT_HIGH as int } else { t }
}

/// Running mean of the outdoor temperature over one day of steps.
pub open spec fn mean_update_spec(mean: int, t_out: int) -> int {
    (95 * (mean + TEMPERATURE_OFFSET) + t_out + TEMPERATURE_OFFSET) / 96 - TEMPERATURE_OFFSET
}

/// `x` held within the range of a 16-bit temperature.
pub open spec fn clamp16(x: int) -> int {
    if x < -32768 { -32768 } else if x > 32767 { 32767 } else { x }
}

/// Envelope temperature after one step with heat input `q_in` (W): the
/// fixed point `(q_in + R t_out + C/dt t) / (C/dt + R)`.
pub open spec fn envelope_spec(res_u: int, cp: int, t: int, t_out: int, q_in: int) -> int {
    clamp16((q_in * 100_000 + res_u * t_out + 4000 * cp * t) / (4000 * cp + res_u))
}

/// Heat flow (W) through the envelope from `t` to `t_out`, zero when colder outside.
pub open spec fn heat_flow_spec(res_u: int, t: int, t_out: int) -> int {
    if t < t_out { 0 } else { res_u * (t - t_out) / 100_000 }
}

/// Space-heating request (W): predicted loss plus heat to reach the set
/// point in one step, less the internal gains, never negative.
pub open spec fn request_spec(res_u: int, cp: int, t: int, t_out: int, gains: int) -> int {
    let heat_up = 4 * cp * (NOMINAL_TEMPERATURE - t) / 100;
    let r = heat_flow_spec(res_u, t, t_out) + heat_up - gains;
    if r < 0 { 0 } else { r }
}

/// Solar gains (W) through windows of `area` square metres with solar factor `g`.
pub open spec fn solar_gains_spec(area: int, g: int, gains: [i64; 4]) -> int {
    area * (gains[0] + gains[1] + gains[2] + gains[3]) / 4 * g / 1000
}

/// The parameters admit a building.
pub open spec fn valid_building(
    n_max_agents: int,
    a_living: int,
    areas_uv: Seq<(i64, i64)>,
    delta_u: int,
    n_inf: int,
    n_vent: int,
    cp_eff: int,
    g: int,
    volume: int,
) -> bool {
    &&& 1 <= n_max_agents <= MAX_AGENTS
    &&& 1 <= a_living <= MAX_AREA
    &&& areas_uv.len() >= 2
    &&& forall|i: int| 0 <= i < areas_uv.len() ==> 0 <= #[trigger] areas_uv[i].0 <= MAX_AREA && 0 <= areas_uv[i].1 <= MAX_U_VALUE
    &&& 1 <= delta_u <= MAX_U_VALUE
    &&& 0 <= n_inf <= MAX_AIR_EXCHANGE
    &&& 0 <= n_vent <= MAX_AIR_EXCHANGE
    &&& 0 <= volume <= MAX_VOLUME
    &&& 0 <= g <= 1000
    &&& 1 <= cp_eff <= MAX_HEAT_CAPACITY
    &&& transmission_spec(areas_uv, delta_u, volume, n_inf, n_vent) <= MAX_TRANSMISSION
}

/// With valid areas, the transmission sum grows with the number of areas.
proof fn lemma_transmission_monotone(areas_uv: Seq<(i64, i64)>, delta_u: int, m: nat, n: nat)
    requires
        m <= n <= areas_uv.len(),
        delta_u >= 0,
        forall|i: int| 0 <= i < areas_uv.len() ==> 0 <= #[trigger] areas_uv[i].0 <= MAX_AREA && 0 <= areas_uv[i].1 <= MAX_U_VALUE,
    ensures
        0 <= transmission_sum(areas_uv, delta_u, m) <= transmission_sum(areas_uv, delta_u, n),
    decreases n,
{
    if n > m {
        lemma_transmission_monotone(areas_uv, delta_u, m, (n - 1) as nat);
        let x = areas_uv[n - 1];
        assert(0 <= x.0 * (x.1 + delta_u)) by (nonlinear_arith)
            requires 0 <= x.0, 0 <= x.1, delta_u >= 0;
    } else if n > 0 {
        lemma_transmission_monotone(areas_uv, delta_u, (n - 1) as nat, (n - 1) as nat);
        let x = areas_uv[n - 1];
        assert(0 <= x.0 * (x.1 + delta_u)) by (nonlinear_arith)
            requires 0 <= x.0, 0 <= x.1, delta_u >= 0;
    }
}

impl Building {
    /// The agents.
    pub closed spec fn agents_spec(&self) -> Seq<Agent> {
        self.agents@
    }

    /// Largest number of agents.
    pub closed spec fn max_agents(&self) -> int {
        self.n_max_agents as int
    }

    /// Living space, square metres.
    pub closed spec fn living_space(&self) -> int {
        self.a_living as int
    }

    /// Window area, square metres.
    pub closed spec fn windows(&self) -> int {
        self.window_area as int
    }

    /// Resulting transmission coefficient, mW per kelvin.
    pub closed spec fn transmission(&self) -> int {
        self.res_u_trans as int
    }

    /// Effective heat capacity, Wh per kelvin.
    pub closed spec fn heat_capacity(&self) -> int {
        self.cp_eff as int
    }

    /// Solar factor of the windows, per mille.
    pub closed spec fn solar_factor(&self) -> int {
        self.g as int
    }

    /// Envelope temperature, hundredths of a degree.
    pub closed spec fn temperature_spec(&self) -> int {
        self.temperature as int
    }

    /// Heat-limit temperature, hundredths of a degree.
    pub closed spec fn heat_limit(&self) -> int {
        self.heat_lim_temperature as int
    }

    /// Running mean outdoor temperature, hundredths of a degree.
    pub closed spec fn mean_outside(&self) -> int {
        self.mean_outside_temperature as int
    }

    /// Connected to the district heating network.
    pub closed spec fn at_dhn(&self) -> bool {
        self.is_at_dhn
    }

    /// Supplies its heat itself.
    pub closed spec fn self_supplied(&self) -> bool {
        self.is_self_supplied_t
    }

    /// Norm heating load, W.
    pub closed spec fn norm_load(&self) -> int {
        self.q_hln as int
    }

    /// The photovoltaic plant.
    pub closed spec fn plant(&self) -> Option<PV> {
        self.pv
    }

    /// Result of the last step, all zero before the first.
    pub closed spec fn last_result(&self) -> (i64, i64, i64, i64) {
        self.last_step
    }

    /// The heating system.
    pub closed spec fn system(&self) -> Option<HeatingSystem> {
        self.heating_system
    }

    /// Parameters in range, agents and components well formed.
    pub open spec fn wf(&self) -> bool {
        &&& 1 <= self.max_agents() <= MAX_AGENTS
        &&& self.agents_spec().len() <= self.max_agents()
        &&& forall|i: int| 0 <= i < self.agents_spec().len() ==> (#[trigger] self.agents_spec()[i]).wf()
        &&& 1 <= self.living_space() <= MAX_AREA
        &&& 0 <= self.windows() <= MAX_AREA
        &&& 0 <= self.transmission() <= MAX_TRANSMISSION
        &&& 1 <= self.heat_capacity() <= MAX_HEAT_CAPACITY
        &&& 0 <= self.solar_factor() <= 1000
        &&& (self.plant() matches Some(p) ==> p.wf())
        &&& (self.system() matches Some(s) ==> s.wf())
    }

    /// Creates a building with no agent and no component.
    ///
    /// `areas_uv` holds each envelope area (square metres) with its U-value
    /// (mW per square metre and kelvin), the second being the windows;
    /// `delta_u` is the U-value offset for thermal bridges; `n_inf`,
    /// `n_vent` the air exchange rates (thousandths per hour); `cp_eff` the
    /// effective heat capacity (Wh per kelvin); `g` the solar factor (per
    /// mille); `volume` the inner volume (cubic metres); `t_out_n` the norm
    /// outdoor temperature (hundredths of a degree).
    pub fn new(
        n_max_agents: u32,
        a_living: i64,
        areas_uv: &Vec<(i64, i64)>,
        delta_u: i64,
        n_inf: i64,
        n_vent: i64,
        cp_eff: i64,
        g: i64,
        volume: i64,
        is_at_dhn: bool,
        t_out_n: i16,
    ) -> (r: Result<Building, BuildingError>)
        ensures
            r is Ok <==> valid_building(n_max_agents as int, a_living as int, areas_uv@, delta_u as int, n_inf as int, n_vent as int, cp_eff as int, g as int, volume as int),
            r matches Ok(b) ==> {
                let res_u = transmission_spec(areas_uv@, delta_u as int, volume as int, n_inf as int, n_vent as int);
                &&& b.wf()
                &&& b.agents_spec().len() == 0
                &&& b.max_agents() == n_max_agents
                &&& b.windows() == areas_uv@[1].0
                &&& b.transmission() == res_u
                &&& b.norm_load() == norm_heating_load(res_u, t_out_n as int)
                &&& b.heat_limit() == heat_limit_spec(norm_heating_load(res_u, t_out_n as int), a_living as int)
                &&& b.temperature_spec() == NOMINAL_TEMPERATURE
                &&& b.mean_outside() == INITIAL_HEAT_LIMIT
                &&& b.at_dhn() == is_at_dhn
                &&& b.self_supplied() == !is_at_dhn
                &&& b.plant() is None
                &&& b.system() is None
            },
    {
        if n_max_agents < 1 || n_max_agents > MAX_AGENTS {
            return Err(BuildingError::Agents);
        }
        if a_living < 1 || a_living > MAX_AREA {
            return Err(BuildingError::LivingSpace);
        }
        if areas_uv.len() < 2 {
            return Err(BuildingError::Areas);
        }
        let mut i: usize = 0;
        while i < areas_uv.len()
            invariant
                i <= areas_uv.len(),
                forall|k: int| 0 <= k < i ==> 0 <= #[trigger] areas_uv@[k].0 <= MAX_AREA && 0 <= areas_uv@[k].1 <= MAX_U_VALUE,
            decreases areas_uv.len() - i,
        {
            let (a, u) = areas_uv[i];
            if a < 0 || a > MAX_AREA || u < 0 || u > MAX_U_VALUE {
                return Err(BuildingError::Areas);
            }
            i = i + 1;
        }
        if delta_u < 1 || delta_u > MAX_U_VALUE {
            return Err(BuildingError::UValueOffset);
        }
        if n_inf < 0 || n_inf > MAX_AIR_EXCHANGE || n_vent < 0 || n_vent > MAX_AIR_EXCHANGE {
            return Err(BuildingError::AirExchange);
        }
        if volume < 0 || volume > MAX_VOLUME {
            return Err(BuildingError::Volume);
        }
        if g < 0 || g > 1000 {
            return Err(BuildingError::SolarFactor);
        }
        if cp_eff < 1 || cp_eff > MAX_HEAT_CAPACITY {
            return Err(BuildingError::HeatCapacity);
        }
        assert(0 <= volume * AIR_HEAT_CAPACITY * (n_inf + n_vent) <= MAX_VOLUME * AIR_HEAT_CAPACITY * 2 * MAX_AIR_EXCHANGE) by (nonlinear_arith)
            requires 0 <= volume <= MAX_VOLUME, 0 <= n_inf + n_vent <= 2 * MAX_AIR_EXCHANGE;
        let air = volume * AIR_HEAT_CAPACITY * (n_inf + n_vent) / 10_000;
        let mut sum: i64 = 0;
        let mut j: usize = 0;
        while j < areas_uv.len()
            invariant
                j <= areas_uv.len(),
                1 <= delta_u <= MAX_U_VALUE,
                forall|k: int| 0 <= k < areas_uv.len() ==> 0 <= #[trigger] areas_uv@[k].0 <= MAX_AREA && 0 <= areas_uv@[k].1 <= MAX_U_VALUE,
                sum == transmission_sum(areas_uv@, delta_u as int, j as nat),
                0 <= sum <= MAX_TRANSMISSION,
            decreases areas_uv.len() - j,
        {
            let (a, u) = areas_uv[j];
            assert(0 <= a * (u + delta_u) <= MAX_AREA * 2 * MAX_U_VALUE) by (nonlinear_arith)
                requires 0 <= a <= MAX_AREA, 0 <= u <= MAX_U_VALUE, 1 <= delta_u <= MAX_U_VALUE;
            sum = sum + a * (u + delta_u);
            if sum > MAX_TRANSMISSION {
                proof {
                    lemma_transmission_monotone(areas_uv@, delta_u as int, (j + 1) as nat, areas_uv@.len());
                }
                return Err(BuildingError::Transmission);
            }
            j = j + 1;
        }
        if sum + air > MAX_TRANSMISSION {
            return Err(BuildingError::Transmission);
        }
        let res_u = sum + air;
        let spread = NOMINAL_TEMPERATURE as i64 - t_out_n as i64;
        assert(-MAX_TRANSMISSION * 40_000 <= res_u * spread <= MAX_TRANSMISSION * 40_000) by (nonlinear_arith)
            requires 0 <= res_u <= MAX_TRANSMISSION, -40_000 <= spread <= 40_000;
        let q_hln = floor_div(res_u as i128 * spread as i128, 100_000) as i64;
        let heat_lim = Building::heat_limit_for(q_hln, a_living);
        let window_area = areas_uv[1].0;
        Ok(Building {
            agents: Vec::new(),
            n_max_agents,
            a_living,
            window_area,
            res_u_trans: res_u,
            cp_eff,
            g,
            temperature: NOMINAL_TEMPERATURE,
            heat_lim_temperature: heat_lim,
            mean_outside_temperature: INITIAL_HEAT_LIMIT,
            is_at_dhn,
            is_self_supplied_t: !is_at_dhn,
            q_hln,
            pv: None,
            heating_system: None,
            last_step: (0, 0, 0, 0),
        })
    }

    /// Adds an agent; fails where the building is full.
    pub fn add_agent(&mut self, agent: Agent) -> (r: Result<(), InstallError>)
        requires
            old(self).wf(),
            agent.wf(),
        ensures
            final(self).wf(),
            r is Ok <==> old(self).agents_spec().len() < old(self).max_agents(),
            r is Ok ==> final(self).agents_spec() == old(self).agents_spec().push(agent),
            r is Err ==> final(self).agents_spec() == old(self).agents_spec() && r == Err::<(), InstallError>(InstallError::Full),
            final(self).system() == old(self).system(),
            final(self).plant() == old(self).plant(),
    {
        if self.agents.len() < self.n_max_agents as usize {
            self.agents.push(agent);
            Ok(())
        } else {
            Err(InstallError::Full)
        }
    }

    /// Replaces the agent at `agent_pos`; fails where there is none.
    pub fn replace_agent(&mut self, agent_pos: usize, agent: Agent) -> (r: Result<(), InstallError>)
        requires
            old(self).wf(),
            agent.wf(),
        ensures
            final(self).wf(),
            r is Ok <==> agent_pos < old(self).agents_spec().len(),
            r is Ok ==> final(self).agents_spec() == old(self).agents_spec().update(agent_pos as int, agent),
            r is Err ==> final(self).agents_spec() == old(self).agents_spec() && r == Err::<(), InstallError>(InstallError::NoSuchAgent),
    {
        if agent_pos < self.agents.len() {
            self.agents.set(agent_pos, agent);
            Ok(())
        } else {
            Err(InstallError::NoSuchAgent)
        }
    }

    /// Number of agents.
    pub fn n_agents(&self) -> (r: usize)
        ensures
            r == self.agents_spec().len(),
    {
        self.agents.len()
    }

    /// Installs a photovoltaic plant; fails where one is installed.
    pub fn add_pv(&mut self, pv: PV) -> (r: Result<(), InstallError>)
        requires
            old(self).wf(),
            pv.wf(),
        ensures
            final(self).wf(),
            r is Ok <==> old(self).plant() is None,
            r is Ok ==> final(self).plant() == Some(pv),
            r is Err ==> final(self).plant() == old(self).plant() && r == Err::<(), InstallError>(InstallError::Occupied),
            final(self).system() == old(self).system(),
            final(self).agents_spec() == old(self).agents_spec(),
    {
        if self.pv.is_none() {
            self.pv = Some(pv);
            Ok(())
        } else {
            Err(InstallError::Occupied)
        }
    }

    /// Installs a heating system; the building then no longer supplies its
    /// heat itself. Fails where one is installed.
    pub fn add_heating_system(&mut self, system: HeatingSystem) -> (r: Result<(), InstallError>)
        requires
            old(self).wf(),
            system.wf(),
        ensures
            final(self).wf(),
            r is Ok <==> old(self).system() is None,
            r is Ok ==> final(self).system() == Some(system) && !final(self).self_supplied(),
            r is Err ==> *final(self) == *old(self) && r == Err::<(), InstallError>(InstallError::Occupied),
            final(self).plant() == old(self).plant(),
            final(self).agents_spec() == old(self).agents_spec(),
            final(self).at_dhn() == old(self).at_dhn(),
    {
        if self.heating_system.is_none() {
            self.heating_system = Some(system);
            self.is_self_supplied_t = false;
            Ok(())
        } else {
            Err(InstallError::Occupied)
        }
    }

    /// Installs a combined heat and power system; see [`Building::add_heating_system`].
    pub fn add_chp(&mut self, chp_system: BuildingChpSystem) -> (r: Result<(), InstallError>)
        requires
            old(self).wf(),
            chp_system.wf(),
        ensures
            final(self).wf(),
            r is Ok <==> old(self).system() is None,
            r is Ok ==> final(self).system() == Some(HeatingSystem::Chp(chp_system)) && !final(self).self_supplied(),
            r is Err ==> *final(self) == *old(self) && r == Err::<(), InstallError>(InstallError::Occupied),
            final(self).plant() == old(self).plant(),
            final(self).agents_spec() == old(self).agents_spec(),
            final(self).at_dhn() == old(self).at_dhn(),
    {
        self.add_heating_system(HeatingSystem::Chp(chp_system))
    }

    /// Installs a heat-pump system; see [`Building::add_heating_system`].
    pub fn add_heatpump(&mut self, heatpump_system: BuildingHeatpumpSystem) -> (r: Result<(), InstallError>)
        requires
            old(self).wf(),
            heatpump_system.wf(),
        ensures
            final(self).wf(),
            r is Ok <==> old(self).system() is None,
            r is Ok ==> final(self).system() == Some(HeatingSystem::Heatpump(heatpump_system)) && !final(self).self_supplied(),
            r is Err ==> *final(self) == *old(self) && r == Err::<(), InstallError>(InstallError::Occupied),
            final(self).plant() == old(self).plant(),
            final(self).agents_spec() == old(self).agents_spec(),
            final(self).at_dhn() == old(self).at_dhn(),
    {
        self.add_heating_system(HeatingSystem::Heatpump(heatpump_system))
    }

    /// Whether a heating system is installed.
    pub fn has_heating_system(&self) -> (r: bool)
        ensures
            r == self.system() is Some,
    {
        self.heating_system.is_some()
    }

    /// The installed heating system.
    pub fn get_heating_system(&self) -> (r: Option<HeatingSystem>)
        ensures
            r == self.system(),
    {
        self.heating_system
    }

    /// Result of the last step.
    pub fn get_last_step(&self) -> (r: (i64, i64, i64, i64))
        ensures
            r == self.last_result(),
    {
        self.last_step
    }

    /// Norm heating load, W.
    pub fn q_hln(&self) -> (r: i64)
        ensures
            r == self.norm_load(),
    {
        self.q_hln
    }

    /// Envelope temperature, hundredths of a degree.
    pub fn get_temperature(&self) -> (r: i16)
        ensures
            r == self.temperature_spec(),
    {
        self.temperature
    }

    /// Heat-limit temperature, hundredths of a degree.
    pub fn get_heat_limit_temperature(&self) -> (r: i16)
        ensures
            r == self.heat_limit(),
    {
        self.heat_lim_temperature
    }

    /// Whether the building supplies its heat itself.
    pub fn is_self_supplied_t(&self) -> (r: bool)
        ensures
            r == self.self_supplied(),
    {
        self.is_self_supplied_t
    }

    /// Whether the building is connected to the district heating network.
    pub fn is_at_dhn(&self) -> (r: bool)
        ensures
            r == self.at_dhn(),
    {
        self.is_at_dhn
    }

    /// Updates the running mean outdoor temperature with `t_out`.
    fn update_mean_t_out(&mut self, t_out: i16)
        ensures
            final(self).mean_outside() == mean_update_spec(old(self).mean_outside(), t_out as int),
            final(self).agents_spec() == old(self).agents_spec(),
            final(self).system() == old(self).system(),
            final(self).plant() == old(self).plant(),
            final(self).temperature_spec() == old(self).temperature_spec(),
            final(self).heat_limit() == old(self).heat_limit(),
            final(self).transmission() == old(self).transmission(),
            final(self).heat_capacity() == old(self).heat_capacity(),
            final(self).at_dhn() == old(self).at_dhn(),
            final(self).max_agents() == old(self).max_agents(),
            final(self).living_space() == old(self).living_space(),
            final(self).windows() == old(self).windows(),
            final(self).solar_factor() == old(self).solar_factor(),
            final(self).self_supplied() == old(self).self_supplied(),
            final(self).norm_load() == old(self).norm_load(),
    {
        let m = self.mean_outside_temperature as i64 + TEMPERATURE_OFFSET;
        let t = t_out as i64 + TEMPERATURE_OFFSET;
        let next = (95 * m + t) / 96 - TEMPERATURE_OFFSET;
        assert(-32768 <= next <= 32767);
        self.mean_outside_temperature = next as i16;
    }

    /// Solar gains through the windows, W; see [`solar_gains_spec`].
    pub fn get_solar_gains(&self, amb: &AmbientParameters) -> (r: i64)
        requires
            self.wf(),
            amb.wf(),
        ensures
            r == solar_gains_spec(self.windows(), self.solar_factor(), amb.specific_gains),
            0 <= r <= MAX_AREA * MAX_IRRADIANCE,
    {
        let gains = amb.specific_gains;
        assert(0 <= gains[0] <= MAX_IRRADIANCE && 0 <= gains[1] <= MAX_IRRADIANCE && 0 <= gains[2] <= MAX_IRRADIANCE && 0 <= gains[3] <= MAX_IRRADIANCE);
        let total = gains[0] + gains[1] + gains[2] + gains[3];
        assert(0 <= self.window_area * total <= MAX_AREA * 4 * MAX_IRRADIANCE) by (nonlinear_arith)
            requires 0 <= self.window_area <= MAX_AREA, 0 <= total <= 4 * MAX_IRRADIANCE;
        let per_side = self.window_area * total / 4;
        assert(0 <= per_side * self.g <= MAX_AREA * MAX_IRRADIANCE * 1000) by (nonlinear_arith)
            requires 0 <= per_side <= MAX_AREA * MAX_IRRADIANCE, 0 <= self.g <= 1000;
        per_side * self.g / 1000
    }

    /// Space-heating request of the bang-bang controller, W; see [`request_spec`].
    pub fn temperature_control(&self, internal_gains: i64, t_out: i16) -> (r: i64)
        requires
            self.wf(),
            0 <= internal_gains,
        ensures
            r == request_spec(self.transmission(), self.heat_capacity(), self.temperature_spec(), t_out as int, internal_gains as int),
            0 <= r <= MAX_REQUEST,
    {
        let c = self.cp_eff as i128;
        let diff = NOMINAL_TEMPERATURE as i128 - self.temperature as i128;
        assert(-MAX_HEAT_CAPACITY * 4 * 70_000 <= 4 * c * diff <= MAX_HEAT_CAPACITY * 4 * 70_000) by (nonlinear_arith)
            requires 1 <= c <= MAX_HEAT_CAPACITY, -70_000 <= diff <= 70_000;
        let heat_up = floor_div(4 * c * diff, 100);
        let flow = Building::heat_flow(self.res_u_trans, self.temperature, t_out);
        let r = flow as i128 + heat_up - internal_gains as i128;
        if r < 0 {
            0
        } else {
            r as i64
        }
    }

    /// Heat flow (W) through the envelope; see [`heat_flow_spec`].
    fn heat_flow(res_u: i64, t: i16, t_out: i16) -> (r: i64)
        requires
            0 <= res_u <= MAX_TRANSMISSION,
        ensures
            r == heat_flow_spec(res_u as int, t as int, t_out as int),
            0 <= r <= MAX_TRANSMISSION * 70_000 / 100_000,
    {
        if t < t_out {
            0
        } else {
            let d = t as i64 - t_out as i64;
            assert(0 <= res_u * d <= MAX_TRANSMISSION * 70_000) by (nonlinear_arith)
                requires 0 <= res_u <= MAX_TRANSMISSION, 0 <= d <= 70_000;
            res_u * d / 100_000
        }
    }

    /// Updates the envelope temperature with heat input `q_in` (W) and
    /// returns the space-heating demand, W: the heat flow out at the new
    /// temperature, zero when colder outside.
    pub fn get_space_heating_demand(&mut self, q_in: i128, t_out: i16) -> (r: i64)
        requires
            old(self).wf(),
            -MAX_HEAT_INPUT <= q_in <= MAX_HEAT_INPUT,
        ensures
            final(self).temperature_spec() == envelope_spec(old(self).transmission(), old(self).heat_capacity(), old(self).temperature_spec(), t_out as int, q_in as int),
            r == heat_flow_spec(old(self).transmission(), final(self).temperature_spec(), t_out as int),
            final(self).wf(),
            final(self).agents_spec() == old(self).agents_spec(),
            final(self).system() == old(self).system(),
            final(self).plant() == old(self).plant(),
            final(self).mean_outside() == old(self).mean_outside(),
            final(self).heat_limit() == old(self).heat_limit(),
            final(self).at_dhn() == old(self).at_dhn(),
            final(self).transmission() == old(self).transmission(),
            final(self).heat_capacity() == old(self).heat_capacity(),
            final(self).windows() == old(self).windows(),
            final(self).solar_factor() == old(self).solar_factor(),
            final(self).norm_load() == old(self).norm_load(),
            final(self).max_agents() == old(self).max_agents(),
            final(self).living_space() == old(self).living_space(),
            final(self).self_supplied() == old(self).self_supplied(),
    {
        let res_u = self.res_u_trans as i128;
        let c4 = 4000 * self.cp_eff as i128;
        let t = self.temperature as i128;
        let to = t_out as i128;
        assert(-MAX_TRANSMISSION * 40_000 <= res_u * to <= MAX_TRANSMISSION * 40_000) by (nonlinear_arith)
            requires 0 <= res_u <= MAX_TRANSMISSION, -40_000 <= to <= 40_000;
        assert(-MAX_HEAT_CAPACITY * 4000 * 40_000 <= c4 * t <= MAX_HEAT_CAPACITY * 4000 * 40_000) by (nonlinear_arith)
            requires 0 <= c4 <= MAX_HEAT_CAPACITY * 4000, -40_000 <= t <= 40_000;
        assert(c4 * t == 4000 * self.cp_eff * t) by (nonlinear_arith)
            requires c4 == 4000 * self.cp_eff;
        let num = q_in * 100_000 + res_u * to + c4 * t;
        let next = floor_div(num, c4 + res_u);
        let clamped: i16 = if next < -32768 {
            -32768
        } else if next > 32767 {
            32767
        } else {
            next as i16
        };
        self.temperature = clamped;
        Building::heat_flow(self.res_u_trans, clamped, t_out)
    }

    /// One step with the agents' summed electrical demand `load_e` and
    /// hot-water demand `load_hw` (W) given.
    ///
    /// Returns `(electrical generation, electrical load, 0, district heating
    /// load)` in W. Without a heating system the space-heating request and
    /// the hot-water demand are supplied from outside: they form the thermal
    /// generation, routed to the district heating load when connected.
    pub fn step_with_loads(&mut self, load_e: i64, load_hw: i64, amb: &AmbientParameters) -> (r: (i64, i64, i64, i64))
        requires
            old(self).wf(),
            amb.wf(),
            0 <= load_e <= MAX_BUILDING_LOAD,
            0 <= load_hw <= MAX_BUILDING_LOAD,
        ensures
            final(self).wf(),
            building_step_spec(*old(self), *final(self), load_e as int, load_hw as int, *amb, r),
            final(self).last_result() == r,
            final(self).mean_outside() == mean_update_spec(old(self).mean_outside(), amb.t_out as int),
            final(self).agents_spec() == old(self).agents_spec(),
            final(self).plant() == old(self).plant(),
            final(self).at_dhn() == old(self).at_dhn(),
            final(self).system() is Some == old(self).system() is Some,
            old(self).system() matches Some(h0) ==> (final(self).system() matches Some(h1) && (h0 is Chp) == (h1 is Chp)),
            r.2 == 0,
            !old(self).at_dhn() ==> r.3 == 0,
            r.1 >= load_e,
            r.0 >= 0,
            r.3 >= -(MAX_QUANTITY * 4_000_000),
            ({
                let gains = load_e + solar_gains_spec(old(self).windows(), old(self).solar_factor(), amb.specific_gains);
                let req = request_spec(old(self).transmission(), old(self).heat_capacity(), old(self).temperature_spec(), amb.t_out as int, gains);
                let pv = match old(self).plant() { Some(p) => p.area() * amb.irradiation_glob / 1000, None => 0 };
                old(self).system() is None ==> {
                    &&& r.0 == pv
                    &&& r.1 == load_e
                    &&& r.3 == (if old(self).at_dhn() { req + load_hw } else { 0 })
                    &&& final(self).temperature_spec() == envelope_spec(old(self).transmission(), old(self).heat_capacity(),
                        old(self).temperature_spec(), amb.t_out as int, gains + req)
                }
            }),
    {
        self.update_mean_t_out(amb.t_out);
        let solar = self.get_solar_gains(amb);
        let internal_gains = load_e + solar;
        let pv_generation = match &self.pv {
            Some(p) => p.step(amb.irradiation_glob),
            None => 0,
        };
        let request = self.temperature_control(internal_gains, amb.t_out);
        let heat_lim = self.heat_lim_temperature;
        let mean = self.mean_outside_temperature;
        let ghost sys0 = self.heating_system;
        let (sub_e, thermal_generation) = match &mut self.heating_system {
            None => (0, request + load_hw),
            Some(hs) => {
                let losses = hs.get_losses();
                let demand = if request > losses {
                    request - losses
                } else {
                    0
                };
                hs.step(demand, load_hw, amb.t_out, heat_lim, mean)
            },
        };
        let mut electrical_load = load_e;
        let mut electrical_generation = pv_generation;
        if sub_e < 0 {
            electrical_load = electrical_load - sub_e;
        } else {
            electrical_generation = electrical_generation + sub_e;
        }
        let dhn_load = if self.is_at_dhn {
            thermal_generation
        } else {
            0
        };
        let q_in = internal_gains as i128 + thermal_generation as i128 - load_hw as i128;
        let _space_heating = self.get_space_heating_demand(q_in, amb.t_out);
        self.last_step = (electrical_generation, electrical_load, 0, dhn_load);
        assert(heat_supply(sys0, self.system(), request as int, load_hw as int, amb.t_out as int, old(self).heat_limit(),
            self.mean_outside(), sub_e as int, thermal_generation as int));
        (electrical_generation, electrical_load, 0, dhn_load)
    }

    /// One step: each agent's demand for load profile values `slp` and
    /// hot-water profile factor `hw_profile` (per mille), with its random
    /// factors drawn, then [`Building::step_with_loads`].
    pub fn step(&mut self, slp: [i64; 3], hw_profile: i64, amb: &AmbientParameters) -> (r: (i64, i64, i64, i64))
        requires
            old(self).wf(),
            amb.wf(),
            forall|i: int| 0 <= i < 3 ==> 0 <= #[trigger] slp[i] <= MAX_SLP,
            0 <= hw_profile <= MAX_HW_PROFILE,
        ensures
            final(self).wf(),
            final(self).agents_spec() == old(self).agents_spec(),
            final(self).at_dhn() == old(self).at_dhn(),
            r.2 == 0,
            !old(self).at_dhn() ==> r.3 == 0,
            r.0 >= 0,
            r.1 >= 0,
            r.3 >= -(MAX_QUANTITY * 4_000_000),
            final(self).last_result() == r,
            exists|le: int, lh: int|
                #[trigger] agent_loads(old(self).agents_spec(), slp, hw_profile as int, old(self).agents_spec().len(), le, lh)
                && building_step_spec(*old(self), *final(self), le, lh, *amb, r),
    {
        let mut load_e: i64 = 0;
        let mut load_hw: i64 = 0;
        let mut i: usize = 0;
        while i < self.agents.len()
            invariant
                self.wf(),
                i <= self.agents@.len(),
                self.agents@.len() <= MAX_AGENTS,
                forall|k: int| 0 <= k < 3 ==> 0 <= #[trigger] slp[k] <= MAX_SLP,
                0 <= hw_profile <= MAX_HW_PROFILE,
                0 <= load_e <= i * MAX_AGENT_DEMAND,
                0 <= load_hw <= i * MAX_AGENT_DEMAND,
                agent_loads(self.agents@, slp, hw_profile as int, i as nat, load_e as int, load_hw as int),
            decreases self.agents@.len() - i,
        {
            assert(self.agents_spec()[i as int].wf());
            let (e, t) = self.agents[i].step(slp, hw_profile);
            proof {
                let a = self.agents@[i as int];
                let (fe, fh) = choose|f_e: int, f_hw: int|
                    #![trigger agent_e(a, slp, f_e), agent_hw(a, hw_profile as int, f_hw)]
                    DEMAND_FACTOR_LOW <= f_e <= DEMAND_FACTOR_HIGH && DEMAND_FACTOR_LOW <= f_hw <= DEMAND_FACTOR_HIGH
                        && e == agent_e(a, slp, f_e) && t == agent_hw(a, hw_profile as int, f_hw);
                assert(agent_loads(self.agents@, slp, hw_profile as int, (i + 1) as nat, load_e + e, load_hw + t)) by {
                    assert(self.agents@[(i + 1) - 1] == a);
                    assert(agent_loads(self.agents@, slp, hw_profile as int, i as nat, (load_e + e) - agent_e(a, slp, fe), (load_hw + t) - agent_hw(a, hw_profile as int, fh)));
                }
            }
            load_e = load_e + e;
            load_hw = load_hw + t;
            i = i + 1;
        }
        let ghost b0 = *self;
        let r = self.step_with_loads(load_e, load_hw, amb);
        assert(agent_loads(b0.agents_spec(), slp, hw_profile as int, b0.agents_spec().len(), load_e as int, load_hw as int));
        r
    }

    /// Installs a combined heat and power system designed for the norm
    /// heating load, with the largest number of agents as hot-water number.
    pub fn add_dimensioned_chp(&mut self) -> (r: Result<(), InstallError>)
        requires
            old(self).wf(),
        ensures
            final(self).wf(),
            old(self).system() is Some ==> r is Err,
            old(self).system() is None && 0 <= old(self).norm_load() <= MAX_QUANTITY ==> r is Ok,
            r is Err ==> *final(self) == *old(self),
            r is Ok ==> (final(self).system() matches Some(HeatingSystem::Chp(c)) && c.unit().thermal_power()
                + c.peak_boiler().power() == old(self).norm_load() && c.heating_storage().pow_max == old(self).norm_load()
                && c.mode() == crate::control::ControlMode::Intermediate && c.losses() == 0
                && exists|f: int| crate::chp_system::CHP_SHARE_LOW <= f <= crate::chp_system::CHP_SHARE_HIGH
                    && c.unit().thermal_power() == #[trigger] (f * old(self).norm_load() / 1000)),
    {
        if self.heating_system.is_some() {
            return Err(InstallError::Occupied);
        }
        match BuildingChpSystem::new(self.q_hln, self.n_max_agents as i64 * 1000) {
            Ok(sys) => self.add_chp(sys),
            Err(_) => Err(InstallError::Design),
        }
    }

    /// Installs a heat-pump system designed for the norm heating load, the
    /// heat-limit temperature and the reference year `t_ref`; see
    /// [`BuildingHeatpumpSystem::new`].
    pub fn add_dimensioned_heatpump(&mut self, seas_perf_fac: i64, t_supply: i16, t_ref: &Vec<i16>, t_out_n: i16) -> (r: Result<(), InstallError>)
        requires
            old(self).wf(),
        ensures
            final(self).wf(),
            r is Ok <==> old(self).system() is None && crate::heatpump_system::design_succeeds(
                old(self).norm_load(),
                seas_perf_fac as int,
                t_supply as int,
                t_ref@,
                old(self).heat_limit(),
                t_out_n as int,
            ),
            r is Err ==> *final(self) == *old(self),
            r is Ok ==> ({
                let p = crate::sizing::design_input(old(self).norm_load(), seas_perf_fac as int, t_ref@, old(self).heat_limit(), t_out_n as int, t_supply as int);
                let sized = crate::sizing::outcome(p, 0, p.band_pow)->Ok_0;
                final(self).system() matches Some(HeatingSystem::Heatpump(h)) && h.pump().power()
                    == crate::heatpump_system::blackout_power(sized.1) && h.pump().min_working_temperature()
                    == crate::sizing::candidate(p, sized.0) && h.pump().supply_temperature() == t_supply
                    && h.peak_boiler().power() == old(self).norm_load()
            }),
    {
        if self.heating_system.is_some() {
            return Err(InstallError::Occupied);
        }
        match BuildingHeatpumpSystem::new(self.q_hln, seas_perf_fac, t_supply, t_ref, self.heat_lim_temperature, t_out_n) {
            Ok(sys) => self.add_heatpump(sys),
            Err(_) => Err(InstallError::Design),
        }
    }

    /// Installs a photovoltaic plant sized for the agents: their summed
    /// consumption factor and mean photovoltaic-demand factor at yearly
    /// irradiation `eg`; see [`PV::size_building_pv`].
    pub fn add_dimensioned_pv(&mut self, eg: i64) -> (r: Result<(), InstallError>)
        requires
            old(self).wf(),
        ensures
            final(self).wf(),
            old(self).plant() is Some ==> r is Err && final(self).plant() == old(self).plant(),
            ({
                let n = old(self).agents_spec().len();
                let mean = if n == 0 { 0 } else { apv_sum(old(self).agents_spec(), n) / (n as int) };
                old(self).plant() is None && mean <= 1000 && crate::pv::pv_sizing_fits(eg as int, coc_sum(old(self).agents_spec(), n), mean)
                    ==> r is Ok
            }),
            r is Ok ==> final(self).plant() is Some,
    {
        let mut sum_coc: i64 = 0;
        let mut sum_apv: i64 = 0;
        let mut i: usize = 0;
        while i < self.agents.len()
            invariant
                i <= self.agents@.len(),
                self.agents@.len() <= MAX_AGENTS,
                forall|k: int| 0 <= k < self.agents@.len() ==> (#[trigger] self.agents@[k]).wf(),
                0 <= sum_coc <= i * crate::agent::MAX_COC,
                0 <= sum_apv <= i * 1000,
                sum_coc == coc_sum(self.agents@, i as nat),
                sum_apv == apv_sum(self.agents@, i as nat),
            decreases self.agents@.len() - i,
        {
            assert(self.agents@[i as int].wf());
            sum_coc = sum_coc + self.agents[i].coc();
            sum_apv = sum_apv + self.agents[i].demand_apv();
            i = i + 1;
        }
        let n = self.agents.len() as i64;
        let mean_apv = if n == 0 {
            0
        } else {
            sum_apv / n
        };
        if mean_apv > 1000 {
            return Err(InstallError::Design);
        }
        match PV::size_building_pv(eg, sum_coc, mean_apv) {
            Some(p) => self.add_pv(p),
            None => Err(InstallError::Design),
        }
    }

    /// Heat-limit temperature for norm load `q_hln` and living space `a_living`; see [`heat_limit_spec`].
    fn heat_limit_for(q_hln: i64, a_living: i64) -> (r: i16)
        requires
            -MAX_TRANSMISSION * 1000 <= q_hln <= MAX_TRANSMISSION * 1000,
            1 <= a_living,
        ensures
            r == heat_limit_spec(q_hln as int, a_living as int),
    {
        let t = floor_div(5 * q_hln as i128, a_living as i128) + HEAT_LIMIT_OFFSET as i128;
        if t < HEAT_LIMIT_LOW as i128 {
            HEAT_LIMIT_LOW as i16
        } else if t > HEAT_LIMIT_HIGH as i128 {
            HEAT_LIMIT_HIGH as i16
        } else {
            t as i16
        }
    }
}

/// A building without a heating system that is connected to the district
/// heating network draws its whole thermal demand from the network: the
/// space-heating request plus the hot-water demand, and reports no thermal
/// generation of its own.
pub proof fn lemma_district_heating_routing(b0: Building, b1: Building, load_e: int, load_hw: int, amb: AmbientParameters, r: (i64, i64, i64, i64))
    requires
        building_step_spec(b0, b1, load_e, load_hw, amb, r),
        b0.system() is None,
    ensures
        r.2 == 0,
        r.3 == (if b0.at_dhn() {
            request_spec(
                b0.transmission(),
                b0.heat_capacity(),
                b0.temperature_spec(),
                amb.t_out as int,
                load_e + solar_gains_spec(b0.windows(), b0.solar_factor(), amb.specific_gains),
            ) + load_hw
        } else {
            0
        }),
{
}

} // verus!

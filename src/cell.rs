//! Grid cells: a tree of cells, each aggregating its sub-cells, buildings,
//! standalone agents, a photovoltaic plant and an optional thermal system.
use vstd::prelude::*;
use crate::units::{MAX_QUANTITY, PER_MILLE};
use crate::agent::{MAX_HW_PROFILE, MAX_SLP};
use crate::sep_bsl_agent::{SepBSLagent, sep_generation, sep_load};
use crate::agent::{DEMAND_FACTOR_HIGH, DEMAND_FACTOR_LOW};
use crate::boiler::Boiler;
use crate::building::{AmbientParameters, Building, agent_loads, building_step_spec};
use crate::chp::CHP;
use crate::chp_system::DesignError;
use crate::control::{ControlMode, Dispatch, chp_dispatch, chp_dispatch_spec};
use crate::pv::PV;
use crate::solarthermal::Solarthermal;
use crate::wind::{Wind, wind_power};
use crate::storage::{GenericStorage, StorageModel};

verus! {

/// Largest total (W) of a cell's aggregates: sums saturate there.
pub const MAX_TOTAL: i64 = 0x7fff_ffff_ffff_ffff;

/// Sum of two powers, saturating at `MAX_TOTAL` and `-MAX_TOTAL`.
pub open spec fn capped_sum(a: int, b: int) -> int {
    if a + b > MAX_TOTAL { MAX_TOTAL as int } else if a + b < -MAX_TOTAL { -MAX_TOTAL } else { a + b }
}

/// Adds two powers; see [`capped_sum`].
pub fn add_capped(a: i64, b: i64) -> (r: i64)
    requires
        a >= -MAX_TOTAL,
        b >= -MAX_TOTAL,
    ensures
        r == capped_sum(a as int, b as int),
        r >= -MAX_TOTAL,
        a >= 0 && b >= 0 ==> r >= 0,
{
    let s = a as i128 + b as i128;
    if s > MAX_TOTAL as i128 {
        MAX_TOTAL
    } else if s < -(MAX_TOTAL as i128) {
        -MAX_TOTAL
    } else {
        s as i64
    }
}

/// Thermal system of a cell: a combined heat and power unit, a boiler and a
/// storage serving a district heating network.
#[derive(Debug, Clone, Copy)]
pub struct CellChpSystemThermal {
    chp: CHP,
    storage: GenericStorage,
    boiler: Boiler,
    dispatch: Dispatch,
}

/// Decision of a cell's thermal system from the relative charge `r` of its
/// storage: the winter rules of a building's system without hot-water storage.
pub open spec fn cell_dispatch_spec(s: Dispatch, r: int) -> Dispatch {
    chp_dispatch_spec(ControlMode::Winter, s, r, PER_MILLE as int)
}

/// One step of a cell's thermal system from `s0` to `s1` with flags `d`
/// and thermal demand `demand`, returning electrical power `e` and thermal
/// power supplied `t`: the sources' heat net of the demand goes into the
/// storage, and the supply is the demand plus the storage's unmet power.
pub open spec fn cell_thermal_step_spec(s0: CellChpSystemThermal, s1: CellChpSystemThermal, d: Dispatch, demand: int, e: int, t: int) -> bool {
    let chp_t = if d.primary { s0.unit().thermal_power() } else { 0 };
    let boiler_t = if d.boiler { s0.peak_boiler().power() } else { 0 };
    let p = chp_t + boiler_t - demand;
    &&& s1.unit().thermal_power() == s0.unit().thermal_power()
    &&& s1.unit().electrical_power() == s0.unit().electrical_power()
    &&& s1.peak_boiler().power() == s0.peak_boiler().power()
    &&& s1.peak_boiler().efficiency_spec() == s0.peak_boiler().efficiency_spec()
    &&& s1.dispatch_state() == d
    &&& s1.heating_storage() == s0.heating_storage().after_step(p)
    &&& e == (if d.primary { s0.unit().electrical_power() } else { 0 })
    &&& t == demand + s0.heating_storage().step_result(p).0
}

impl CellChpSystemThermal {
    /// The storage.
    pub closed spec fn heating_storage(&self) -> StorageModel {
        self.storage@
    }

    /// The unit.
    pub closed spec fn unit(&self) -> CHP {
        self.chp
    }

    /// The boiler.
    pub closed spec fn peak_boiler(&self) -> Boiler {
        self.boiler
    }

    /// Current flags.
    pub closed spec fn dispatch_state(&self) -> Dispatch {
        self.dispatch
    }

    /// Components well formed.
    pub open spec fn wf(&self) -> bool {
        self.heating_storage().wf() && self.unit().wf() && self.peak_boiler().wf()
    }

    /// A system of thermal power `p_th` (W), of which the unit covers
    /// `chp_prop` per mille and the boiler the rest, with a storage of
    /// capacity `storage_cap` (watt-steps), self-discharge `storage_self_loss`
    /// (parts per million per hour) and efficiencies in per mille; the
    /// storage's initial charge is drawn at random.
    pub fn new(
        p_th: i64,
        chp_prop: i64,
        storage_cap: i64,
        storage_self_loss: i64,
        storage_charge_eff: i64,
        storage_discharge_eff: i64,
    ) -> (r: Result<CellChpSystemThermal, DesignError>)
        ensures
            r is Ok <==> (0 < p_th <= MAX_QUANTITY && 0 <= chp_prop <= PER_MILLE && crate::storage::parameter_error(
                storage_cap as int,
                storage_charge_eff as int,
                storage_discharge_eff as int,
                storage_self_loss as int,
                p_th as int,
            ) is None),
            r matches Ok(s) ==> s.wf() && s.unit().thermal_power() + s.peak_boiler().power() == p_th
                && s.heating_storage().pow_max == p_th && s.dispatch_state() == (Dispatch { boiler: false, primary: false }),
    {
        if !(0 < p_th && p_th <= MAX_QUANTITY && 0 <= chp_prop && chp_prop <= PER_MILLE) {
            return Err(DesignError::Parameter);
        }
        assert(0 <= chp_prop * p_th <= PER_MILLE * p_th) by (nonlinear_arith)
            requires 0 <= chp_prop <= PER_MILLE, 0 <= p_th;
        assert(chp_prop * p_th / (PER_MILLE as int) <= p_th) by {
            vstd::arithmetic::div_mod::lemma_div_is_ordered(chp_prop * p_th, PER_MILLE * p_th, PER_MILLE as int);
            vstd::arithmetic::div_mod::lemma_div_by_multiple(p_th as int, PER_MILLE as int);
        }
        let pow_chp = chp_prop * p_th / PER_MILLE;
        let chp = match CHP::new(pow_chp) {
            Some(c) => c,
            None => return Err(DesignError::Parameter),
        };
        let boiler = match Boiler::new(p_th - pow_chp) {
            Some(b) => b,
            None => return Err(DesignError::Parameter),
        };
        let storage = match GenericStorage::new(storage_cap, storage_charge_eff, storage_discharge_eff, storage_self_loss, p_th) {
            Ok(s) => s,
            Err(_) => return Err(DesignError::Storage),
        };
        Ok(CellChpSystemThermal { chp, storage, boiler, dispatch: Dispatch { boiler: false, primary: false } })
    }

    /// Runs the sources with flags `d` chosen outside, as an external control
    /// policy does, and feeds their heat net of `thermal_demand` (W) into the
    /// storage. Returns `(electrical, thermal supplied, fuel)` power in W: the
    /// thermal power is the demand plus the storage's unmet power.
    pub fn step_with(&mut self, d: Dispatch, thermal_demand: i64) -> (r: (i64, i64, i64))
        requires
            old(self).wf(),
            0 <= thermal_demand <= MAX_QUANTITY,
        ensures
            final(self).wf(),
            cell_thermal_step_spec(*old(self), *final(self), d, thermal_demand as int, r.0 as int, r.1 as int),
            0 <= r.0 <= MAX_QUANTITY,
            0 <= r.1 <= 2 * MAX_QUANTITY,
            r.2 >= 0,
    {
        self.dispatch = d;
        let (pow_e, chp_t, chp_fuel) = self.chp.step(d.primary);
        let (boiler_t, boiler_fuel) = self.boiler.step(d.boiler);
        proof {
            crate::boiler::lemma_fuel_bounds(boiler_t as int, self.boiler.efficiency_spec());
        }
        assert(chp_fuel <= 3 * MAX_QUANTITY);
        let (diff, _loss) = self.storage.step(chp_t + boiler_t - thermal_demand);
        (pow_e, thermal_demand + diff, chp_fuel + boiler_fuel)
    }

    /// One step with the flags of the built-in state machine; see
    /// [`cell_dispatch_spec`] and [`CellChpSystemThermal::step_with`].
    pub fn step(&mut self, thermal_demand: i64) -> (r: (i64, i64, i64))
        requires
            old(self).wf(),
            0 <= thermal_demand <= MAX_QUANTITY,
        ensures
            final(self).wf(),
            cell_thermal_step_spec(
                *old(self),
                *final(self),
                cell_dispatch_spec(old(self).dispatch_state(), old(self).heating_storage().relative_charge()),
                thermal_demand as int,
                r.0 as int,
                r.1 as int,
            ),
            0 <= r.0 <= MAX_QUANTITY,
            0 <= r.1 <= 2 * MAX_QUANTITY,
            r.2 >= 0,
    {
        let rel = self.storage.get_relative_charge();
        let d = chp_dispatch(ControlMode::Winter, self.dispatch, rel, PER_MILLE);
        self.step_with(d, thermal_demand)
    }
}

/// Snapshot of a cell's last step, for observers and external control.
#[derive(Debug, Clone, Copy, PartialEq, Eq, Structural)]
pub struct CellManager {
    pub generation_e: i64,
    pub load_e: i64,
    pub generation_t: i64,
    pub load_t: i64,
    /// Electrical power of the cell's thermal system.
    pub contribution_e: i64,
    /// Thermal power of the cell's thermal system.
    pub contribution_t: i64,
    /// Fuel power of the cell's thermal system.
    pub fuel_used: i64,
}

impl CellManager {
    /// An all-zero snapshot.
    pub fn new() -> (r: CellManager)
        ensures
            r == (CellManager { generation_e: 0, load_e: 0, generation_t: 0, load_t: 0, contribution_e: 0, contribution_t: 0, fuel_used: 0 }),
    {
        CellManager { generation_e: 0, load_e: 0, generation_t: 0, load_t: 0, contribution_e: 0, contribution_t: 0, fuel_used: 0 }
    }

    /// All values, in field order.
    pub fn get_state(&self) -> (r: (i64, i64, i64, i64, i64, i64, i64))
        ensures
            r == (self.generation_e, self.load_e, self.generation_t, self.load_t, self.contribution_e, self.contribution_t, self.fuel_used),
    {
        (self.generation_e, self.load_e, self.generation_t, self.load_t, self.contribution_e, self.contribution_t, self.fuel_used)
    }

    /// Replaces all values.
    pub fn update(&mut self, generation_e: i64, load_e: i64, generation_t: i64, load_t: i64, cont_e: i64, cont_t: i64, fuel_used: i64)
        ensures
            *final(self) == (CellManager { generation_e, load_e, generation_t, load_t, contribution_e: cont_e, contribution_t: cont_t, fuel_used }),
    {
        *self = CellManager { generation_e, load_e, generation_t, load_t, contribution_e: cont_e, contribution_t: cont_t, fuel_used };
    }
}

/// A grid cell.
#[derive(Debug)]
pub struct Cell {
    sub_cells: Vec<Cell>,
    buildings: Vec<Building>,
    sep_bsl_agents: Vec<SepBSLagent>,
    pv: Option<PV>,
    solarthermal: Option<Solarthermal>,
    wind: Option<Wind>,
    thermal_system: Option<CellChpSystemThermal>,
    state: CellManager,
    t_out_n: i16,
    depth: u32,
}

/// Why a component cannot be added to a cell.
#[derive(Debug, Clone, Copy, PartialEq, Eq, Structural)]
pub enum CellError {
    /// The slot is taken: one plant, one thermal system per cell.
    Occupied,
    /// No building at that position.
    NoSuchBuilding,
    /// The tree of cells would be too deep.
    TooDeep,
}

/// Largest depth of a tree of cells.
pub const MAX_DEPTH: u32 = 1000;

impl Cell {
    /// The sub-cells.
    pub closed spec fn sub_cells_spec(&self) -> Seq<Cell> {
        self.sub_cells@
    }

    /// The buildings.
    pub closed spec fn buildings_spec(&self) -> Seq<Building> {
        self.buildings@
    }

    /// The standalone agents.
    pub closed spec fn agents_spec(&self) -> Seq<SepBSLagent> {
        self.sep_bsl_agents@
    }

    /// The photovoltaic plant.
    pub closed spec fn plant(&self) -> Option<PV> {
        self.pv
    }

    /// The solar-thermal plant.
    pub closed spec fn solar_plant(&self) -> Option<Solarthermal> {
        self.solarthermal
    }

    /// The wind turbine.
    pub closed spec fn turbine(&self) -> Option<Wind> {
        self.wind
    }

    /// The thermal system.
    pub closed spec fn system(&self) -> Option<CellChpSystemThermal> {
        self.thermal_system
    }

    /// The snapshot of the last step.
    pub closed spec fn manager(&self) -> CellManager {
        self.state
    }

    /// Norm outdoor temperature of the region, hundredths of a degree.
    pub closed spec fn norm_temperature(&self) -> int {
        self.t_out_n as int
    }

    /// Height of the tree below this cell, as recorded.
    pub closed spec fn depth_spec(&self) -> nat {
        self.depth as nat
    }

    /// This cell's own parts are well formed.
    pub open spec fn local_wf(&self) -> bool {
        &&& forall|i: int| 0 <= i < self.buildings_spec().len() ==> (#[trigger] self.buildings_spec()[i]).wf()
        &&& forall|i: int| 0 <= i < self.agents_spec().len() ==> (#[trigger] self.agents_spec()[i]).wf()
        &&& (self.plant() matches Some(p) ==> p.wf())
        &&& (self.solar_plant() matches Some(p) ==> p.wf())
        &&& (self.turbine() matches Some(w) ==> w.wf())
        &&& (self.system() matches Some(t) ==> t.wf())
        &&& self.depth_spec() <= MAX_DEPTH
    }

    /// The cell and all cells below it, down to `d` levels, are well formed.
    pub open spec fn wf_depth(&self, d: nat) -> bool
        decreases d,
    {
        &&& self.local_wf()
        &&& if d == 0 {
            self.sub_cells_spec().len() == 0
        } else {
            forall|i: int| 0 <= i < self.sub_cells_spec().len() ==> (#[trigger] self.sub_cells_spec()[i]).wf_depth((d - 1) as nat)
        }
    }

    /// Well formed down to the recorded depth.
    pub open spec fn wf(&self) -> bool {
        self.local_wf() && self.wf_depth(self.depth_spec())
    }

    /// An empty cell for a region of norm outdoor temperature `t_out_n`.
    pub fn new(t_out_n: i16) -> (r: Cell)
        ensures
            r.wf(),
            r.sub_cells_spec().len() == 0,
            r.buildings_spec().len() == 0,
            r.agents_spec().len() == 0,
            r.plant() is None,
            r.solar_plant() is None,
            r.turbine() is None,
            r.system() is None,
            r.depth_spec() == 0,
            r.norm_temperature() == t_out_n,
    {
        Cell {
            sub_cells: Vec::new(),
            buildings: Vec::new(),
            sep_bsl_agents: Vec::new(),
            pv: None,
            solarthermal: None,
            wind: None,
            thermal_system: None,
            state: CellManager::new(),
            t_out_n,
            depth: 0,
        }
    }

    /// Norm outdoor temperature of the region, hundredths of a degree.
    pub fn get_t_out_n(&self) -> (r: i16)
        ensures
            r == self.norm_temperature(),
    {
        self.t_out_n
    }

    /// The snapshot of the last step.
    pub fn get_state(&self) -> (r: CellManager)
        ensures
            r == self.manager(),
    {
        self.state
    }

    /// Adds a building.
    pub fn add_building(&mut self, building: Building)
        requires
            old(self).wf(),
            building.wf(),
        ensures
            final(self).wf(),
            final(self).buildings_spec() == old(self).buildings_spec().push(building),
            final(self).sub_cells_spec() == old(self).sub_cells_spec(),
    {
        self.buildings.push(building);
        assert(self.buildings_spec() == old(self).buildings_spec().push(building));
        assert(self.agents_spec() == old(self).agents_spec());
        assert forall|i: int| 0 <= i < self.agents_spec().len() implies (#[trigger] self.agents_spec()[i]).wf() by {
            assert(self.agents_spec()[i] == old(self).agents_spec()[i]);
        }
        assert forall|i: int| 0 <= i < self.buildings_spec().len() implies (#[trigger] self.buildings_spec()[i]).wf() by {
            if i < old(self).buildings_spec().len() {
                assert(self.buildings_spec()[i] == old(self).buildings_spec()[i]);
            }
        }
        proof {
            lemma_same_tree(*old(self), *self);
        }
    }

    /// Replaces the building at `building_pos`; fails where there is none.
    pub fn replace_building(&mut self, building_pos: usize, building: Building) -> (r: Result<(), CellError>)
        requires
            old(self).wf(),
            building.wf(),
        ensures
            final(self).wf(),
            r is Ok <==> building_pos < old(self).buildings_spec().len(),
            r is Ok ==> final(self).buildings_spec() == old(self).buildings_spec().update(building_pos as int, building),
            r is Err ==> final(self).buildings_spec() == old(self).buildings_spec() && r == Err::<(), CellError>(CellError::NoSuchBuilding),
    {
        if building_pos >= self.buildings.len() {
            return Err(CellError::NoSuchBuilding);
        }
        self.buildings.set(building_pos, building);
        assert forall|i: int| 0 <= i < self.buildings_spec().len() implies (#[trigger] self.buildings_spec()[i]).wf() by {
            if i != building_pos {
                assert(self.buildings_spec()[i] == old(self).buildings_spec()[i]);
            }
        }
        assert forall|i: int| 0 <= i < self.agents_spec().len() implies (#[trigger] self.agents_spec()[i]).wf() by {
            assert(self.agents_spec()[i] == old(self).agents_spec()[i]);
        }
        proof {
            lemma_same_tree(*old(self), *self);
        }
        Ok(())
    }

    /// Adds a standalone business agent.
    pub fn add_sep_bsl_agent(&mut self, agent: SepBSLagent)
        requires
            old(self).wf(),
            agent.wf(),
        ensures
            final(self).wf(),
            final(self).agents_spec() == old(self).agents_spec().push(agent),
    {
        self.sep_bsl_agents.push(agent);
        assert(self.buildings_spec() == old(self).buildings_spec());
        assert forall|i: int| 0 <= i < self.buildings_spec().len() implies (#[trigger] self.buildings_spec()[i]).wf() by {
            assert(self.buildings_spec()[i] == old(self).buildings_spec()[i]);
        }
        assert forall|i: int| 0 <= i < self.agents_spec().len() implies (#[trigger] self.agents_spec()[i]).wf() by {
            if i < old(self).agents_spec().len() {
                assert(self.agents_spec()[i] == old(self).agents_spec()[i]);
            }
        }
        proof {
            lemma_same_tree(*old(self), *self);
        }
    }

    /// Installs a photovoltaic plant; fails where one is installed.
    pub fn add_pv(&mut self, pv: PV) -> (r: Result<(), CellError>)
        requires
            old(self).wf(),
            pv.wf(),
        ensures
            final(self).wf(),
            r is Ok <==> old(self).plant() is None,
            r is Ok ==> final(self).plant() == Some(pv),
            r is Err ==> final(self).plant() == old(self).plant() && r == Err::<(), CellError>(CellError::Occupied),
    {
        if self.pv.is_none() {
            self.pv = Some(pv);
            proof {
                lemma_parts_kept(*old(self), *self);
            }
            Ok(())
        } else {
            Err(CellError::Occupied)
        }
    }

    /// Installs a solar-thermal plant; fails where one is installed.
    pub fn add_solarthermal(&mut self, plant: Solarthermal) -> (r: Result<(), CellError>)
        requires
            old(self).wf(),
            plant.wf(),
        ensures
            final(self).wf(),
            r is Ok <==> old(self).solar_plant() is None,
            r is Ok ==> final(self).solar_plant() == Some(plant),
            r is Err ==> final(self).solar_plant() == old(self).solar_plant() && r == Err::<(), CellError>(CellError::Occupied),
    {
        if self.solarthermal.is_none() {
            self.solarthermal = Some(plant);
            proof {
                lemma_parts_kept(*old(self), *self);
            }
            Ok(())
        } else {
            Err(CellError::Occupied)
        }
    }

    /// Installs a wind turbine; fails where one is installed.
    pub fn add_wind_turbine(&mut self, turbine: Wind) -> (r: Result<(), CellError>)
        requires
            old(self).wf(),
            turbine.wf(),
        ensures
            final(self).wf(),
            r is Ok <==> old(self).turbine() is None,
            r is Ok ==> final(self).turbine() == Some(turbine),
            r is Err ==> final(self).turbine() == old(self).turbine() && r == Err::<(), CellError>(CellError::Occupied),
    {
        if self.wind.is_none() {
            self.wind = Some(turbine);
            proof {
                lemma_parts_kept(*old(self), *self);
            }
            Ok(())
        } else {
            Err(CellError::Occupied)
        }
    }

    /// Installs a thermal system; fails where one is installed.
    pub fn add_chp_thermal(&mut self, system: CellChpSystemThermal) -> (r: Result<(), CellError>)
        requires
            old(self).wf(),
            system.wf(),
        ensures
            final(self).wf(),
            r is Ok <==> old(self).system() is None,
            r is Ok ==> final(self).system() == Some(system),
            r is Err ==> final(self).system() == old(self).system() && r == Err::<(), CellError>(CellError::Occupied),
    {
        if self.thermal_system.is_none() {
            self.thermal_system = Some(system);
            proof {
                lemma_parts_kept(*old(self), *self);
            }
            Ok(())
        } else {
            Err(CellError::Occupied)
        }
    }

    /// Adds a sub-cell; fails where the tree would be deeper than 1000.
    pub fn add_cell(&mut self, cell: Cell) -> (r: Result<(), CellError>)
        requires
            old(self).wf(),
            cell.wf(),
        ensures
            final(self).wf(),
            r is Ok <==> old(self).depth_spec() <= MAX_DEPTH && cell.depth_spec() < MAX_DEPTH,
            r is Ok ==> final(self).sub_cells_spec() == old(self).sub_cells_spec().push(cell),
            r is Err ==> final(self).sub_cells_spec() == old(self).sub_cells_spec(),
    {
        if cell.depth >= MAX_DEPTH {
            return Err(CellError::TooDeep);
        }
        let new_depth = if cell.depth + 1 > self.depth {
            cell.depth + 1
        } else {
            self.depth
        };
        proof {
            assert forall|i: int| 0 <= i < self.sub_cells_spec().len() implies (#[trigger] self.sub_cells_spec()[i]).wf_depth((new_depth - 1) as nat) by {
                lemma_wf_depth_monotone(self.sub_cells_spec()[i], (self.depth - 1) as nat, (new_depth - 1) as nat);
            }
            lemma_wf_depth_monotone(cell, cell.depth as nat, (new_depth - 1) as nat);
        }
        self.sub_cells.push(cell);
        self.depth = new_depth;
        proof {
            assert(self.sub_cells_spec() == old(self).sub_cells_spec().push(cell));
            assert forall|i: int| 0 <= i < self.sub_cells_spec().len() implies (#[trigger] self.sub_cells_spec()[i]).wf_depth((new_depth - 1) as nat) by {
                if i < old(self).sub_cells_spec().len() {
                    assert(self.sub_cells_spec()[i] == old(self).sub_cells_spec()[i]);
                }
            }
            assert forall|i: int| 0 <= i < self.buildings_spec().len() implies (#[trigger] self.buildings_spec()[i]).wf() by {
                assert(self.buildings_spec()[i] == old(self).buildings_spec()[i]);
            }
            assert forall|i: int| 0 <= i < self.agents_spec().len() implies (#[trigger] self.agents_spec()[i]).wf() by {
                assert(self.agents_spec()[i] == old(self).agents_spec()[i]);
            }
        }
        Ok(())
    }
}

/// Component `k` (0 to 3) of a step result.
pub open spec fn quad_part(x: (i64, i64, i64, i64), k: int) -> int {
    if k == 0 { x.0 as int } else if k == 1 { x.1 as int } else if k == 2 { x.2 as int } else { x.3 as int }
}

/// The step result a snapshot records.
pub open spec fn manager_quad(m: CellManager) -> (i64, i64, i64, i64) {
    (m.generation_e, m.load_e, m.generation_t, m.load_t)
}

/// Saturating sum of component `k` of the last results of cells `cs`, in order.
pub open spec fn cells_total(cs: Seq<Cell>, k: int) -> int
    decreases cs.len(),
{
    if cs.len() == 0 {
        0
    } else {
        capped_sum(cells_total(cs.drop_last(), k), quad_part(manager_quad(cs.last().manager()), k))
    }
}

/// Saturating sum, from `start`, of component `k` of the last results of buildings `bs`, in order.
pub open spec fn buildings_total(start: int, bs: Seq<Building>, k: int) -> int
    decreases bs.len(),
{
    if bs.len() == 0 {
        start
    } else {
        capped_sum(buildings_total(start, bs.drop_last(), k), quad_part(bs.last().last_result(), k))
    }
}

/// Component `k` summed over a cell's sub-cells, then its buildings.
pub open spec fn parts_total(c: Cell, k: int) -> int {
    buildings_total(cells_total(c.sub_cells_spec(), k), c.buildings_spec(), k)
}

/// `x` plus the photovoltaic plant's output at irradiance `eg`, if any.
pub open spec fn add_pv_output(x: int, plant: Option<PV>, eg: int) -> int {
    match plant {
        Some(p) => capped_sum(x, p.area() * eg / 1000),
        None => x,
    }
}

/// `x` plus the wind turbine's output at measured wind speed `ws`, if any.
pub open spec fn add_wind_output(x: int, turbine: Option<Wind>, ws: int) -> int {
    match turbine {
        Some(w) => capped_sum(
            x,
            wind_power(w.area_spec(), w.efficiency_spec(), w.min_ws_spec(), w.opt_ws_spec(), w.max_ws_spec(), ws * w.hub_factor_spec() / 1000),
        ),
        None => x,
    }
}

/// `x` plus the solar-thermal plant's output at irradiance `eg`, if any.
pub open spec fn add_solar_output(x: int, plant: Option<Solarthermal>, eg: int) -> int {
    match plant {
        Some(p) => capped_sum(x, p.area() * eg * p.efficiency_spec() / 1_000_000),
        None => x,
    }
}

/// Demand on a cell's thermal system: the thermal load not covered by the
/// thermal generation, at most the largest quantity a system takes.
pub open spec fn cell_system_demand(load_t: int, gen_t: int) -> int {
    if load_t <= gen_t { 0 } else if load_t - gen_t > MAX_QUANTITY { MAX_QUANTITY as int } else { load_t - gen_t }
}

/// Result `r` of a cell's step from `c0` to `c1`, `d` levels deep: each
/// building and, down to `d` levels, each sub-cell stepped from its state
/// before with the same inputs, and the parts' results summed
/// (sub-cells, then buildings, then standalone agents for some demand
/// factors), then the plants, then the thermal system against the net
/// thermal load, its electrical output counted as generation.
pub open spec fn cell_step_spec(c0: Cell, c1: Cell, slp: [i64; 3], hw_profile: int, amb: AmbientParameters, r: (i64, i64, i64, i64), d: nat) -> bool
    decreases d,
{
    let n = c0.agents_spec().len();
    let eg = amb.irradiation_glob as int;
    let g = add_wind_output(
        add_pv_output(capped_sum(parts_total(c1, 0), sep_generation_total(c0.agents_spec(), eg, n)), c0.plant(), eg),
        c0.turbine(),
        amb.wind_speed as int,
    );
    let gt = add_solar_output(parts_total(c1, 2), c0.solar_plant(), eg);
    let lt = parts_total(c1, 3);
    &&& exists|fs: Seq<int>|
        fs.len() == n && factors_in_range(fs) && r.1 == capped_sum(parts_total(c1, 1), #[trigger] sep_load_total(c0.agents_spec(), slp, fs, n))
    &&& r.3 == lt
    &&& (match c0.system() {
        None => r.0 == g && r.2 == gt,
        Some(t0) => c1.system() matches Some(t1) && cell_thermal_step_spec(
            t0,
            t1,
            cell_dispatch_spec(t0.dispatch_state(), t0.heating_storage().relative_charge()),
            cell_system_demand(lt, gt),
            c1.manager().contribution_e as int,
            c1.manager().contribution_t as int,
        ) && r.0 == capped_sum(g, c1.manager().contribution_e as int) && r.2 == capped_sum(gt, c1.manager().contribution_t as int),
    })
    &&& c1.buildings_spec().len() == c0.buildings_spec().len()
    &&& forall|i: int| 0 <= i < c0.buildings_spec().len() ==> #[trigger] building_stepped(
        c0.buildings_spec()[i],
        c1.buildings_spec()[i],
        slp,
        hw_profile,
        amb,
    )
    &&& c1.sub_cells_spec().len() == c0.sub_cells_spec().len()
    &&& (d > 0 ==> forall|i: int| 0 <= i < c0.sub_cells_spec().len() ==> cell_step_spec(
        c0.sub_cells_spec()[i],
        #[trigger] c1.sub_cells_spec()[i],
        slp,
        hw_profile,
        amb,
        manager_quad(c1.sub_cells_spec()[i].manager()),
        (d - 1) as nat,
    ))
}

/// Building `b1` is `b0` after one step with load profile values `slp`,
/// hot-water profile factor `hw_profile` and weather `amb`, for some demand
/// factors of its agents; its recorded result is that step's.
pub open spec fn building_stepped(b0: Building, b1: Building, slp: [i64; 3], hw_profile: int, amb: AmbientParameters) -> bool {
    exists|le: int, lh: int|
        #[trigger] agent_loads(b0.agents_spec(), slp, hw_profile, b0.agents_spec().len(), le, lh)
            && building_step_spec(b0, b1, le, lh, amb, b1.last_result())
}

impl Cell {
    /// One step of this cell and, first, of every cell below it, `d` levels deep.
    fn step_at(&mut self, slp: [i64; 3], hw_profile: i64, amb: &AmbientParameters, Ghost(d): Ghost<nat>) -> (r: (i64, i64, i64, i64))
        requires
            old(self).local_wf(),
            old(self).wf_depth(d),
            amb.wf(),
            forall|i: int| 0 <= i < 3 ==> 0 <= #[trigger] slp[i] <= MAX_SLP,
            0 <= hw_profile <= MAX_HW_PROFILE,
        ensures
            final(self).local_wf(),
            final(self).wf_depth(d),
            final(self).depth_spec() == old(self).depth_spec(),
            final(self).sub_cells_spec().len() == old(self).sub_cells_spec().len(),
            final(self).buildings_spec().len() == old(self).buildings_spec().len(),
            final(self).agents_spec() == old(self).agents_spec(),
            final(self).plant() == old(self).plant(),
            final(self).solar_plant() == old(self).solar_plant(),
            final(self).turbine() == old(self).turbine(),
            final(self).system() is Some == old(self).system() is Some,
            r.0 >= 0 && r.1 >= 0 && r.2 >= 0 && r.3 >= -MAX_TOTAL,
            final(self).manager().generation_e == r.0,
            final(self).manager().load_e == r.1,
            final(self).manager().generation_t == r.2,
            final(self).manager().load_t == r.3,
            old(self).system() is None ==> final(self).manager().contribution_e == 0 && final(self).manager().contribution_t == 0
                && final(self).manager().fuel_used == 0,
            old(self).system() matches Some(t0) ==> (final(self).system() matches Some(t1) && t1.dispatch_state()
                == cell_dispatch_spec(t0.dispatch_state(), t0.heating_storage().relative_charge())),
            cell_step_spec(*old(self), *final(self), slp, hw_profile as int, *amb, r, d),
        decreases d,
    {
        let mut gen_e: i64 = 0;
        let mut load_e: i64 = 0;
        let mut gen_t: i64 = 0;
        let mut load_t: i64 = 0;

        // sub-cells first
        let mut pending: Vec<Cell> = Vec::new();
        std::mem::swap(&mut pending, &mut self.sub_cells);
        let ghost n_subs = pending@.len();
        let ghost orig = pending@;
        let mut done: Vec<Cell> = Vec::new();
        proof {
            assert(pending@ == old(self).sub_cells_spec());
            assert forall|j: int| 0 <= j < pending@.len() implies (#[trigger] pending@[j]).local_wf() && pending@[j].wf_depth((d - 1) as nat) by {
                assert(old(self).sub_cells_spec()[j].wf_depth((d - 1) as nat));
            }
        }
        while pending.len() > 0
            invariant
                done@.len() + pending@.len() == n_subs,
                n_subs > 0 ==> d > 0,
                forall|j: int| 0 <= j < pending@.len() ==> (#[trigger] pending@[j]).local_wf() && pending@[j].wf_depth((d - 1) as nat),
                forall|j: int| 0 <= j < done@.len() ==> (#[trigger] done@[j]).local_wf() && done@[j].wf_depth((d - 1) as nat),
                amb.wf(),
                forall|i: int| 0 <= i < 3 ==> 0 <= #[trigger] slp[i] <= MAX_SLP,
                0 <= hw_profile <= MAX_HW_PROFILE,
                gen_e >= 0 && load_e >= 0 && gen_t >= 0 && load_t >= -MAX_TOTAL,
                gen_e == cells_total(done@, 0) && load_e == cells_total(done@, 1),
                gen_t == cells_total(done@, 2) && load_t == cells_total(done@, 3),
                orig == old(self).sub_cells_spec(),
                orig.len() == n_subs,
                pending@ =~= orig.subrange(done@.len() as int, n_subs as int),
                d > 0 ==> forall|j: int| 0 <= j < done@.len() ==> cell_step_spec(
                    orig[j],
                    #[trigger] done@[j],
                    slp,
                    hw_profile as int,
                    *amb,
                    manager_quad(done@[j].manager()),
                    (d - 1) as nat,
                ),
            decreases pending@.len(),
        {
            let ghost k = done@.len() as int;
            let mut c = pending.remove(0);
            assert(c == orig[k]);
            let (a, b, e, f) = c.step_at(slp, hw_profile, amb, Ghost((d - 1) as nat));
            gen_e = add_capped(gen_e, a);
            load_e = add_capped(load_e, b);
            gen_t = add_capped(gen_t, e);
            load_t = add_capped(load_t, f);
            let ghost prev = done@;
            done.push(c);
            proof {
                assert(done@.drop_last() =~= prev);
                assert(manager_quad(done@.last().manager()) == (a, b, e, f));
                assert(forall|j: int| 0 <= j < prev.len() ==> done@[j] == prev[j]);
                assert(done@[k] == c);
                assert(pending@ =~= orig.subrange(done@.len() as int, n_subs as int));
            }
        }
        self.sub_cells = done;
        let ghost subs1 = self.sub_cells@;

        // then buildings
        let mut pending_b: Vec<Building> = Vec::new();
        std::mem::swap(&mut pending_b, &mut self.buildings);
        let ghost n_b = pending_b@.len();
        let ghost orig_b = pending_b@;
        let mut done_b: Vec<Building> = Vec::new();
        proof {
            assert(pending_b@ == old(self).buildings_spec());
            assert forall|j: int| 0 <= j < pending_b@.len() implies (#[trigger] pending_b@[j]).wf() by {
                assert(old(self).buildings_spec()[j].wf());
            }
        }
        while pending_b.len() > 0
            invariant
                done_b@.len() + pending_b@.len() == n_b,
                forall|j: int| 0 <= j < pending_b@.len() ==> (#[trigger] pending_b@[j]).wf(),
                forall|j: int| 0 <= j < done_b@.len() ==> (#[trigger] done_b@[j]).wf(),
                amb.wf(),
                forall|i: int| 0 <= i < 3 ==> 0 <= #[trigger] slp[i] <= MAX_SLP,
                0 <= hw_profile <= MAX_HW_PROFILE,
                gen_e >= 0 && load_e >= 0 && gen_t >= 0 && load_t >= -MAX_TOTAL,
                gen_e == buildings_total(cells_total(subs1, 0), done_b@, 0),
                load_e == buildings_total(cells_total(subs1, 1), done_b@, 1),
                gen_t == buildings_total(cells_total(subs1, 2), done_b@, 2),
                load_t == buildings_total(cells_total(subs1, 3), done_b@, 3),
                orig_b == old(self).buildings_spec(),
                orig_b.len() == n_b,
                pending_b@ =~= orig_b.subrange(done_b@.len() as int, n_b as int),
                forall|j: int| 0 <= j < done_b@.len() ==> #[trigger] building_stepped(orig_b[j], done_b@[j], slp, hw_profile as int, *amb),
            decreases pending_b@.len(),
        {
            let ghost k = done_b@.len() as int;
            let mut b = pending_b.remove(0);
            assert(b == orig_b[k]);
            let ghost b_before = b;
            let (a, l, e, f) = b.step(slp, hw_profile, amb);
            assert(building_stepped(b_before, b, slp, hw_profile as int, *amb));
            gen_e = add_capped(gen_e, a);
            load_e = add_capped(load_e, l);
            gen_t = add_capped(gen_t, e);
            load_t = add_capped(load_t, f);
            let ghost prev = done_b@;
            done_b.push(b);
            proof {
                assert(done_b@.drop_last() =~= prev);
                assert(done_b@.last().last_result() == (a, l, e, f));
                assert(forall|j: int| 0 <= j < prev.len() ==> done_b@[j] == prev[j]);
                assert(done_b@[k] == b);
                assert(pending_b@ =~= orig_b.subrange(done_b@.len() as int, n_b as int));
            }
        }
        self.buildings = done_b;
        assert(gen_e == parts_total(*self, 0) && load_e == parts_total(*self, 1));
        assert(gen_t == parts_total(*self, 2) && load_t == parts_total(*self, 3));

        // then standalone agents
        proof {
            assert(self.agents_spec() == old(self).agents_spec());
        }
        let (agents_gen, agents_load) = sep_agents_step(&self.sep_bsl_agents, slp, amb.irradiation_glob);
        let ghost fs = choose|fs: Seq<int>|
            fs.len() == self.agents_spec().len() && factors_in_range(fs) && agents_load == #[trigger] sep_load_total(
                self.agents_spec(),
                slp,
                fs,
                self.agents_spec().len(),
            );
        gen_e = add_capped(gen_e, agents_gen);
        load_e = add_capped(load_e, agents_load);

        // own generation
        match &self.pv {
            Some(p) => {
                gen_e = add_capped(gen_e, p.step(amb.irradiation_glob));
            },
            None => {},
        }

        match &self.wind {
            Some(w) => {
                gen_e = add_capped(gen_e, w.step(amb.wind_speed));
            },
            None => {},
        }
        match &self.solarthermal {
            Some(p) => {
                gen_t = add_capped(gen_t, p.step(amb.irradiation_glob));
            },
            None => {},
        }

        // thermal system against the net thermal load
        let mut contribution_e: i64 = 0;
        let mut contribution_t: i64 = 0;
        let mut fuel: i64 = 0;
        match &mut self.thermal_system {
            Some(ts) => {
                let net = if load_t > gen_t {
                    load_t - gen_t
                } else {
                    0
                };
                let demand = if net > MAX_QUANTITY {
                    MAX_QUANTITY
                } else {
                    net
                };
                let (e, t, f) = ts.step(demand);
                contribution_e = e;
                contribution_t = t;
                fuel = f;
                gen_t = add_capped(gen_t, t);
                gen_e = add_capped(gen_e, e);
            },
            None => {},
        }
        self.state.update(gen_e, load_e, gen_t, load_t, contribution_e, contribution_t, fuel);
        proof {
            assert(self.sub_cells_spec() == subs1);
            assert(old(self).sub_cells_spec() == orig);
            assert(fs.len() == old(self).agents_spec().len() && factors_in_range(fs) && load_e == capped_sum(
                parts_total(*self, 1),
                sep_load_total(old(self).agents_spec(), slp, fs, old(self).agents_spec().len()),
            ));
            if d == 0 {
                assert(self.sub_cells_spec().len() == 0);
            }
        }
        (gen_e, load_e, gen_t, load_t)
    }

    /// One step of the cell: its sub-cells, its buildings and its standalone
    /// agents, in that order, each summed into `(electrical generation,
    /// electrical load, thermal generation, thermal load)` in W; then its
    /// plants; then its thermal system against the net thermal load, its
    /// electrical output counted as generation. Sums saturate at
    /// [`MAX_TOTAL`]. The snapshot takes the result.
    pub fn step(&mut self, slp: [i64; 3], hw_profile: i64, amb: &AmbientParameters) -> (r: (i64, i64, i64, i64))
        requires
            old(self).wf(),
            amb.wf(),
            forall|i: int| 0 <= i < 3 ==> 0 <= #[trigger] slp[i] <= MAX_SLP,
            0 <= hw_profile <= MAX_HW_PROFILE,
        ensures
            final(self).wf(),
            r.0 >= 0 && r.1 >= 0 && r.2 >= 0 && r.3 >= -MAX_TOTAL,
            final(self).manager().generation_e == r.0,
            final(self).manager().load_e == r.1,
            final(self).manager().generation_t == r.2,
            final(self).manager().load_t == r.3,
            old(self).system() is None ==> final(self).manager().contribution_e == 0 && final(self).manager().contribution_t == 0
                && final(self).manager().fuel_used == 0,
            old(self).system() matches Some(t0) ==> (final(self).system() matches Some(t1) && t1.dispatch_state()
                == cell_dispatch_spec(t0.dispatch_state(), t0.heating_storage().relative_charge())),
            cell_step_spec(*old(self), *final(self), slp, hw_profile as int, *amb, r, old(self).depth_spec()),
            final(self).sub_cells_spec().len() == old(self).sub_cells_spec().len(),
            final(self).buildings_spec().len() == old(self).buildings_spec().len(),
            final(self).agents_spec() == old(self).agents_spec(),
    {
        let ghost d = self.depth as nat;
        self.step_at(slp, hw_profile, amb, Ghost(d))
    }
}

/// Saturating sum of the generation of the first `n` standalone agents.
pub open spec fn sep_generation_total(agents: Seq<SepBSLagent>, eg: int, n: nat) -> int
    decreases n,
{
    if n == 0 { 0 } else { capped_sum(sep_generation_total(agents, eg, (n - 1) as nat), sep_generation(agents[n - 1], eg)) }
}

/// Saturating sum of the load of the first `n` standalone agents with demand factors `fs`.
pub open spec fn sep_load_total(agents: Seq<SepBSLagent>, slp: [i64; 3], fs: Seq<int>, n: nat) -> int
    decreases n,
{
    if n == 0 { 0 } else { capped_sum(sep_load_total(agents, slp, fs, (n - 1) as nat), sep_load(agents[n - 1], slp, fs[n - 1])) }
}

/// Every demand factor lies in `[800, 1200]` per mille.
pub open spec fn factors_in_range(fs: Seq<int>) -> bool {
    forall|i: int| 0 <= i < fs.len() ==> DEMAND_FACTOR_LOW <= #[trigger] fs[i] <= DEMAND_FACTOR_HIGH
}

/// Summed `(generation, load)` (W) of standalone agents, each saturating at [`MAX_TOTAL`].
fn sep_agents_step(agents: &Vec<SepBSLagent>, slp: [i64; 3], eg: i64) -> (r: (i64, i64))
    requires
        forall|j: int| 0 <= j < agents@.len() ==> (#[trigger] agents@[j]).wf(),
        forall|k: int| 0 <= k < 3 ==> 0 <= #[trigger] slp[k] <= MAX_SLP,
        0 <= eg <= crate::pv::MAX_IRRADIANCE,
    ensures
        r.0 >= 0,
        r.1 >= 0,
        r.0 == sep_generation_total(agents@, eg as int, agents@.len()),
        exists|fs: Seq<int>| fs.len() == agents@.len() && factors_in_range(fs) && r.1 == #[trigger] sep_load_total(agents@, slp, fs, agents@.len()),
{
    let ghost mut fs: Seq<int> = Seq::empty();
    let mut generation: i64 = 0;
    let mut load: i64 = 0;
    let mut i: usize = 0;
    while i < agents.len()
        invariant
            i <= agents@.len(),
            forall|j: int| 0 <= j < agents@.len() ==> (#[trigger] agents@[j]).wf(),
            forall|k: int| 0 <= k < 3 ==> 0 <= #[trigger] slp[k] <= MAX_SLP,
            0 <= eg <= crate::pv::MAX_IRRADIANCE,
            generation >= 0,
            load >= 0,
            generation == sep_generation_total(agents@, eg as int, i as nat),
            fs.len() == i,
            factors_in_range(fs),
            load == sep_load_total(agents@, slp, fs, i as nat),
        decreases agents@.len() - i,
    {
        let (g, l) = agents[i].step(slp, eg);
        generation = add_capped(generation, g);
        load = add_capped(load, l);
        proof {
            let a = agents@[i as int];
            let f = choose|f: int| DEMAND_FACTOR_LOW <= f <= DEMAND_FACTOR_HIGH && l == #[trigger] sep_load(a, slp, f);
            let fs0 = fs;
            fs = fs.push(f);
            assert forall|k: int| 0 <= k < i implies fs0[k] == fs[k] by {}
            lemma_sep_load_prefix(agents@, slp, fs0, fs, i as nat);
        }
        i = i + 1;
    }
    assert(fs.len() == agents@.len() && factors_in_range(fs) && load == sep_load_total(agents@, slp, fs, agents@.len()));
    (generation, load)
}

/// The load total of the first `n` agents depends on the first `n` factors only.
proof fn lemma_sep_load_prefix(agents: Seq<SepBSLagent>, slp: [i64; 3], fs0: Seq<int>, fs1: Seq<int>, n: nat)
    requires
        n <= fs0.len(),
        n <= fs1.len(),
        forall|k: int| 0 <= k < n ==> fs0[k] == fs1[k],
    ensures
        sep_load_total(agents, slp, fs0, n) == sep_load_total(agents, slp, fs1, n),
    decreases n,
{
    if n > 0 {
        lemma_sep_load_prefix(agents, slp, fs0, fs1, (n - 1) as nat);
    }
}

/// A cell whose own parts are well formed and whose sub-cells and depth
/// are those of a well-formed cell is well formed.
proof fn lemma_same_tree(before: Cell, after: Cell)
    requires
        before.wf(),
        after.local_wf(),
        after.sub_cells_spec() == before.sub_cells_spec(),
        after.depth_spec() == before.depth_spec(),
    ensures
        after.wf(),
{
    if after.depth_spec() > 0 {
        assert forall|i: int| 0 <= i < after.sub_cells_spec().len() implies (#[trigger] after.sub_cells_spec()[i]).wf_depth((after.depth_spec() - 1) as nat) by {
            assert(after.sub_cells_spec()[i] == before.sub_cells_spec()[i]);
        }
    }
}

/// A cell that keeps the buildings, agents, sub-cells and depth of a
/// well-formed cell, with well-formed components, is well formed.
proof fn lemma_parts_kept(before: Cell, after: Cell)
    requires
        before.wf(),
        after.buildings_spec() == before.buildings_spec(),
        after.agents_spec() == before.agents_spec(),
        after.sub_cells_spec() == before.sub_cells_spec(),
        after.depth_spec() == before.depth_spec(),
        after.plant() matches Some(p) ==> p.wf(),
        after.solar_plant() matches Some(p) ==> p.wf(),
        after.turbine() matches Some(w) ==> w.wf(),
        after.system() matches Some(t) ==> t.wf(),
    ensures
        after.wf(),
{
    assert forall|i: int| 0 <= i < after.buildings_spec().len() implies (#[trigger] after.buildings_spec()[i]).wf() by {
        assert(after.buildings_spec()[i] == before.buildings_spec()[i]);
    }
    assert forall|i: int| 0 <= i < after.agents_spec().len() implies (#[trigger] after.agents_spec()[i]).wf() by {
        assert(after.agents_spec()[i] == before.agents_spec()[i]);
    }
    lemma_same_tree(before, after);
}

/// Well-formedness down to `d` levels holds down to any `e >= d` levels.
pub proof fn lemma_wf_depth_monotone(c: Cell, d: nat, e: nat)
    requires
        c.wf_depth(d),
        d <= e,
    ensures
        c.wf_depth(e),
    decreases d,
{
    if d > 0 {
        assert forall|i: int| 0 <= i < c.sub_cells_spec().len() implies (#[trigger] c.sub_cells_spec()[i]).wf_depth((e - 1) as nat) by {
            lemma_wf_depth_monotone(c.sub_cells_spec()[i], (d - 1) as nat, (e - 1) as nat);
        }
    }
}

} // verus!

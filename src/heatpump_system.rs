//! Heating system of a building with a heat pump, a peak-load boiler and a
//! storage, the heat pump sized against a reference year.
use vstd::prelude::*;
use crate::units::MAX_QUANTITY;
use crate::boiler::Boiler;
use crate::chp_system::{DesignError, STORAGE_EFFICIENCY};
use crate::control::{ControlMode, HeatpumpDispatch, hp_dispatch, hp_dispatch_spec, next_mode_spec, update_control_mode, same_band, lemma_hp_no_chatter};
use crate::heatpump::{Heatpump, CORRELATION_SCALE, modulation_spec, q_from_coefficients, q_spec, cop_spec, thermal_output, electrical_input};
use crate::sizing::{Sizing, size_heatpump};
use crate::storage::{GenericStorage, StorageModel};
use crate::tank::{MAX_SPREAD, WATER_PER_KW_HIGH, WATER_PER_KW_LOW, find_heat_storage_loss_parameter, find_heating_system_storage, is_nearest_model, tank_capacity_spec, volume_spec};

verus! {

/// Half-width of the control-mode hysteresis, hundredths of a degree.
pub const HP_MODE_HALF_WIDTH: i32 = 200;

/// Room temperature and spread of the heating circuit, hundredths of a degree.
pub const ROOM_TEMPERATURE: i64 = 2000;
pub const SUPPLY_SPREAD: i64 = 500;

/// Outdoor temperature (hundredths of a degree) at which the storage must
/// take the heat pump's full output.
pub const STORAGE_DESIGN_TEMPERATURE: i16 = 2000;

/// A building heating system around a heat pump.
#[derive(Debug, Clone, Copy)]
pub struct BuildingHeatpumpSystem {
    heatpump: Heatpump,
    storage: GenericStorage,
    boiler: Boiler,
    dispatch: HeatpumpDispatch,
    control_mode: ControlMode,
    last_losses: i64,
}

/// Installed power (W) raised for six hours of supply blackout a day.
pub open spec fn blackout_power(pow_t: int) -> int {
    pow_t * 4 / 3
}

/// Largest installed power (W) before the blackout allowance that a design accepts.
pub const MAX_SIZED_POWER: i64 = 750_000_000_000;

/// Thermal output (W) of a heat pump of power `pow_t` at the storage design
/// temperature, zero where its power factor is not positive.
pub open spec fn design_output(pow_t: int, t_supply: int) -> int {
    let q = q_spec(pow_t, STORAGE_DESIGN_TEMPERATURE as int, t_supply);
    if q > 0 { pow_t * q / CORRELATION_SCALE as int } else { 0 }
}

/// A design for these parameters succeeds: they are valid, the heat pump
/// can be sized, and the sized pump gives a system.
pub open spec fn design_succeeds(q_hln: int, seas_perf_fac: int, t_supply: int, t_ref: Seq<i16>, t_heat_lim: int, t_out_n: int) -> bool {
    let p = crate::sizing::design_input(q_hln, seas_perf_fac, t_ref, t_heat_lim, t_out_n, t_supply);
    &&& crate::sizing::valid_design(q_hln, seas_perf_fac, t_ref, t_heat_lim, t_out_n, t_supply)
    &&& crate::sizing::outcome(p, 0, p.band_pow) is Ok
    &&& system_feasible(crate::sizing::outcome(p, 0, p.band_pow)->Ok_0.1, q_hln, t_supply)
}

/// A sized heat pump of power `sized_pow` (W, before the blackout
/// allowance) gives a system: its power in range, a positive storage spread
/// and a storage power limit in range.
pub open spec fn system_feasible(sized_pow: int, q_hln: int, t_supply: int) -> bool {
    let spread = t_supply + SUPPLY_SPREAD - ROOM_TEMPERATURE;
    &&& 0 <= sized_pow <= MAX_SIZED_POWER
    &&& 1 <= spread <= MAX_SPREAD
    &&& design_output(blackout_power(sized_pow), t_supply) <= MAX_QUANTITY - q_hln
}

/// One step of a heat-pump system from `s0` to `s1` with the given demands
/// and temperatures, returning electrical power `e` and thermal power
/// supplied `t`; see [`BuildingHeatpumpSystem::step`].
pub open spec fn hp_step_spec(s0: BuildingHeatpumpSystem, s1: BuildingHeatpumpSystem, heating_demand: int, hot_water_demand: int, t_out: int, t_heat_lim: int, t_out_mean: int, e: int, t: int) -> bool {
    &&& s1.pump().power() == s0.pump().power()
    &&& s1.pump().supply_temperature() == s0.pump().supply_temperature()
    &&& s1.pump().min_working_temperature() == s0.pump().min_working_temperature()
    &&& s1.peak_boiler().power() == s0.peak_boiler().power()
    &&& s1.peak_boiler().efficiency_spec() == s0.peak_boiler().efficiency_spec()
    &&& s1.mode() == next_mode_spec(s0.mode(), t_heat_lim, t_out_mean, HP_MODE_HALF_WIDTH as int)
    &&& s1.dispatch_state() == hp_dispatch_spec(s1.mode(), s0.dispatch_state(), s0.heating_storage().relative_charge())
    &&& ({
        let d = s1.dispatch_state();
        let hp = s0.pump();
        let m = modulation_spec(d.modulation as int);
        let q = q_spec(hp.power(), t_out, hp.supply_temperature());
        let cop = cop_spec(hp.power(), t_out, hp.supply_temperature());
        let runs = m > 0;
        let hp_t = if runs { thermal_output(m, hp.power(), q) } else { 0 };
        let hp_e = if runs { electrical_input(hp_t, cop) } else { 0 };
        let boiler_t = if d.boiler { s0.peak_boiler().power() } else { 0 };
        let sh = s0.heating_storage();
        let sh_p = hp_t + boiler_t - heating_demand - hot_water_demand;
        &&& s1.heating_storage() == sh.after_step(sh_p)
        &&& s1.losses() == sh.step_result(sh_p).1
        &&& e == -hp_e
        &&& t == heating_demand + hot_water_demand + sh.step_result(sh_p).0 + s1.losses()
    })
}

impl BuildingHeatpumpSystem {
    /// The storage.
    pub closed spec fn heating_storage(&self) -> StorageModel {
        self.storage@
    }

    /// The heat pump.
    pub closed spec fn pump(&self) -> Heatpump {
        self.heatpump
    }

    /// The peak-load boiler.
    pub closed spec fn peak_boiler(&self) -> Boiler {
        self.boiler
    }

    /// Current boiler flag and modulation.
    pub closed spec fn dispatch_state(&self) -> HeatpumpDispatch {
        self.dispatch
    }

    /// Current control mode.
    pub closed spec fn mode(&self) -> ControlMode {
        self.control_mode
    }

    /// Storage losses of the last step, W.
    pub closed spec fn losses(&self) -> int {
        self.last_losses as int
    }

    /// Components well formed.
    pub open spec fn wf(&self) -> bool {
        &&& self.heating_storage().wf()
        &&& self.pump().wf()
        &&& self.peak_boiler().wf()
        &&& 0 <= self.losses() <= 2 * MAX_QUANTITY
    }

    /// Assembles a system from its components, in the given control mode
    /// with both sources off.
    pub fn from_parts(heatpump: Heatpump, storage: GenericStorage, boiler: Boiler, control_mode: ControlMode) -> (r: BuildingHeatpumpSystem)
        requires
            heatpump.wf(),
            storage@.wf(),
            boiler.wf(),
        ensures
            r.wf(),
            r.pump() == heatpump,
            r.heating_storage() == storage@,
            r.peak_boiler() == boiler,
            r.mode() == control_mode,
            r.dispatch_state() == (HeatpumpDispatch { boiler: false, modulation: 0 }),
            r.losses() == 0,
    {
        BuildingHeatpumpSystem {
            heatpump,
            storage,
            boiler,
            dispatch: HeatpumpDispatch { boiler: false, modulation: 0 },
            control_mode,
            last_losses: 0,
        }
    }

    /// Designs a system for norm heating load `q_hln` (W), seasonal
    /// performance target `seas_perf_fac` (per mille), supply temperature
    /// `t_supply`, reference year `t_ref`, heat-limit temperature
    /// `t_heat_lim` and norm outdoor temperature `t_out_n`. The heat pump is
    /// sized by [`size_heatpump`] and raised for supply blackouts; the boiler
    /// covers the whole norm load; the storage is a standard tank.
    pub fn new(q_hln: i64, seas_perf_fac: i64, t_supply: i16, t_ref: &Vec<i16>, t_heat_lim: i16, t_out_n: i16) -> (r: Result<BuildingHeatpumpSystem, DesignError>)
        ensures
            ({
                let dp = crate::sizing::design_input(q_hln as int, seas_perf_fac as int, t_ref@, t_heat_lim as int, t_out_n as int, t_supply as int);
                let sized = crate::sizing::outcome(dp, 0, dp.band_pow);
                &&& !crate::sizing::valid_design(q_hln as int, seas_perf_fac as int, t_ref@, t_heat_lim as int, t_out_n as int, t_supply as int)
                    ==> r == Err::<BuildingHeatpumpSystem, DesignError>(DesignError::Sizing(crate::sizing::SizingError::Parameter))
                &&& crate::sizing::valid_design(q_hln as int, seas_perf_fac as int, t_ref@, t_heat_lim as int, t_out_n as int, t_supply as int)
                    && sized is Err ==> r == Err::<BuildingHeatpumpSystem, DesignError>(DesignError::Sizing(sized->Err_0))
                &&& crate::sizing::valid_design(q_hln as int, seas_perf_fac as int, t_ref@, t_heat_lim as int, t_out_n as int, t_supply as int)
                    && sized is Ok ==> {
                    let p = crate::sizing::design_input(q_hln as int, seas_perf_fac as int, t_ref@, t_heat_lim as int, t_out_n as int, t_supply as int);
                    let k = sized->Ok_0.0;
                    let t_c = crate::sizing::candidate(p, k);
                    let sized_pow = sized->Ok_0.1;
                    &&& (r is Ok <==> system_feasible(sized_pow, q_hln as int, t_supply as int))
                    &&& (r matches Ok(s) ==> s.pump().power() == blackout_power(sized_pow) && s.pump().min_working_temperature() == t_c)
                }
            }),
            r is Ok <==> design_succeeds(q_hln as int, seas_perf_fac as int, t_supply as int, t_ref@, t_heat_lim as int, t_out_n as int),
            r matches Ok(s) ==> s.losses() == 0 && s.dispatch_state() == (HeatpumpDispatch { boiler: false, modulation: 0 })
                && s.heating_storage().charging_efficiency == STORAGE_EFFICIENCY
                && s.heating_storage().pow_max == design_output(s.pump().power(), t_supply as int) + q_hln
                && exists|w: int, i: int|
                    WATER_PER_KW_LOW <= w <= WATER_PER_KW_HIGH && #[trigger] is_nearest_model(s.pump().power() * w, i)
                        && s.heating_storage().capacity == tank_capacity_spec(
                        volume_spec(i),
                        t_supply + SUPPLY_SPREAD - ROOM_TEMPERATURE,
                    ),
            r matches Ok(s) ==> s.wf() && s.mode() == ControlMode::Intermediate && s.peak_boiler().power() == q_hln
                && s.pump().supply_temperature() == t_supply,
    {
        let sizing: Sizing = match size_heatpump(q_hln, seas_perf_fac, t_supply, t_ref, t_heat_lim, t_out_n) {
            Ok(s) => s,
            Err(e) => return Err(DesignError::Sizing(e)),
        };
        if sizing.pow_t > MAX_SIZED_POWER || sizing.pow_t < 0 {
            return Err(DesignError::Parameter);
        }
        let pow_t = sizing.pow_t * 4 / 3;
        let heatpump = match Heatpump::new(pow_t, t_supply, sizing.t_min) {
            Some(h) => h,
            None => return Err(DesignError::Parameter),
        };
        let boiler = match Boiler::new(q_hln) {
            Some(b) => b,
            None => return Err(DesignError::Parameter),
        };
        let spread = t_supply as i64 + SUPPLY_SPREAD - ROOM_TEMPERATURE;
        if spread < 1 || spread > MAX_SPREAD {
            return Err(DesignError::Parameter);
        }
        let (cap, volume) = find_heating_system_storage(pow_t, spread);
        if cap <= 0 {
            return Err(DesignError::Storage);
        }
        let self_loss = find_heat_storage_loss_parameter(volume, cap);
        let max_q = q_from_coefficients(pow_t, STORAGE_DESIGN_TEMPERATURE, t_supply);
        assert(0 <= pow_t <= MAX_QUANTITY);
        assert(max_q > 0 ==> 0 <= pow_t * max_q <= MAX_QUANTITY * 4_000_000_000_000_000) by (nonlinear_arith)
            requires 0 <= pow_t <= MAX_QUANTITY, max_q <= 4_000_000_000_000_000;
        let full_output: i128 = if max_q > 0 {
            (pow_t as i128) * (max_q as i128) / (CORRELATION_SCALE as i128)
        } else {
            0
        };
        if full_output > (MAX_QUANTITY - q_hln) as i128 {
            return Err(DesignError::Storage);
        }
        let storage = match GenericStorage::new(cap, STORAGE_EFFICIENCY, STORAGE_EFFICIENCY, self_loss, full_output as i64 + q_hln) {
            Ok(s) => s,
            Err(_) => return Err(DesignError::Storage),
        };
        Ok(BuildingHeatpumpSystem::from_parts(heatpump, storage, boiler, ControlMode::Intermediate))
    }

    /// Storage losses of the last step, W.
    pub fn get_losses(&self) -> (r: i64)
        ensures
            r == self.losses(),
    {
        self.last_losses
    }

    /// Current boiler flag and modulation.
    pub fn get_dispatch(&self) -> (r: HeatpumpDispatch)
        ensures
            r == self.dispatch_state(),
    {
        self.dispatch
    }

    /// Current control mode.
    pub fn get_control_mode(&self) -> (r: ControlMode)
        ensures
            r == self.mode(),
    {
        self.control_mode
    }

    /// The storage.
    pub fn get_storage(&self) -> (r: GenericStorage)
        ensures
            r@ == self.heating_storage(),
    {
        self.storage
    }

    /// The heat pump.
    pub fn get_heatpump(&self) -> (r: Heatpump)
        ensures
            r == self.pump(),
    {
        self.heatpump
    }

    /// One step: updates the control mode and the flags, runs heat pump and
    /// boiler, and feeds their heat net of the whole demand into the storage.
    ///
    /// Returns `(electrical power, thermal power supplied)` in W: the heat
    /// pump's input as a negative power, and the demand plus the storage's
    /// unmet power and losses.
    pub fn step(&mut self, heating_demand: i64, hot_water_demand: i64, t_out: i16, t_heat_lim: i16, t_out_mean: i16) -> (r: (i64, i64))
        requires
            old(self).wf(),
            0 <= heating_demand <= MAX_QUANTITY,
            0 <= hot_water_demand <= MAX_QUANTITY,
        ensures
            final(self).wf(),
            hp_step_spec(*old(self), *final(self), heating_demand as int, hot_water_demand as int, t_out as int, t_heat_lim as int, t_out_mean as int, r.0 as int, r.1 as int),
            -(MAX_QUANTITY * 4_000_000) <= r.0 <= MAX_QUANTITY * 4_000_000,
            -(MAX_QUANTITY * 4_000_000) <= r.1 <= MAX_QUANTITY * 4_000_003,
    {
        let mode = update_control_mode(self.control_mode, t_heat_lim, t_out_mean, HP_MODE_HALF_WIDTH);
        self.control_mode = mode;
        let r_sh = self.storage.get_relative_charge();
        self.dispatch = hp_dispatch(mode, self.dispatch, r_sh);
        let (con_e, hp_t) = self.heatpump.step(self.dispatch.modulation, t_out);
        let (boiler_t, _fuel) = self.boiler.step(self.dispatch.boiler);
        let thermal_load = heating_demand + hot_water_demand;
        let (diff, loss) = self.storage.step(hp_t + boiler_t - thermal_load);
        self.last_losses = loss;
        (-con_e, thermal_load + diff + loss)
    }
}

/// No chatter over two consecutive steps: where the control mode stays the
/// same and the storage charge seen at both steps lies inside one band, the
/// second step keeps the flags of the first.
pub proof fn lemma_hp_steps_no_chatter(
    s0: BuildingHeatpumpSystem,
    s1: BuildingHeatpumpSystem,
    s2: BuildingHeatpumpSystem,
    h1: int, w1: int, o1: int, l1: int, m1: int, e1: int, t1: int,
    h2: int, w2: int, o2: int, l2: int, m2: int, e2: int, t2: int,
)
    requires
        hp_step_spec(s0, s1, h1, w1, o1, l1, m1, e1, t1),
        hp_step_spec(s1, s2, h2, w2, o2, l2, m2, e2, t2),
        s2.mode() == s1.mode(),
        same_band(s0.heating_storage().relative_charge(), s1.heating_storage().relative_charge()),
    ensures
        s2.dispatch_state() == s1.dispatch_state(),
{
    lemma_hp_no_chatter(s1.mode(), s0.dispatch_state(), s0.heating_storage().relative_charge(), s1.heating_storage().relative_charge());
}

/// At or below the low-low threshold of the storage, a step runs the boiler
/// and the heat pump at full load, in every mode.
pub proof fn lemma_hp_low_charge_starts_both(
    s0: BuildingHeatpumpSystem,
    s1: BuildingHeatpumpSystem,
    h: int, w: int, o: int, l: int, m: int, e: int, t: int,
)
    requires
        hp_step_spec(s0, s1, h, w, o, l, m, e, t),
        s0.heating_storage().relative_charge() <= crate::control::LEVEL_LL,
    ensures
        s1.dispatch_state() == (HeatpumpDispatch { boiler: true, modulation: crate::control::HP_FULL_LOAD }),
{
}

} // verus!

//! Heating system of a building with a combined heat and power unit, a
//! peak-load boiler, a space-heating storage and a hot-water storage.
use vstd::prelude::*;
use crate::units::{MAX_QUANTITY, PER_MILLE};
use crate::boiler::Boiler;
use crate::chp::CHP;
use crate::control::{ControlMode, Dispatch, chp_dispatch, chp_dispatch_spec, next_mode_spec, update_control_mode, same_band, LEVEL_HH, LEVEL_LL, lemma_chp_no_chatter};
use crate::random::draw_between;
use crate::sizing::SizingError;
use crate::storage::{GenericStorage, StorageModel};
use crate::tank::{find_heat_storage_loss_parameter, find_heating_system_storage, find_hot_water_system_storage};

verus! {

/// Half-width of the control-mode hysteresis, hundredths of a degree.
pub const CHP_MODE_HALF_WIDTH: i32 = 50;

/// Lowest and highest share (per mille) of the norm heating load covered by the unit.
pub const CHP_SHARE_LOW: i64 = 300;
pub const CHP_SHARE_HIGH: i64 = 600;

/// Charging and discharging efficiency (per mille) of both storages.
pub const STORAGE_EFFICIENCY: i64 = 950;

/// Self-discharge (parts per million per hour) of the hot-water storage.
pub const HOT_WATER_SELF_DISCHARGE: i64 = 10_000;

/// Temperature spread (hundredths of a kelvin) of the space-heating storage.
pub const HEATING_SPREAD: i64 = 4000;

/// Temperature spread (hundredths of a kelvin) of the hot-water storage.
pub const HOT_WATER_SPREAD: i64 = 6000;

/// A building heating system around a combined heat and power unit.
#[derive(Debug, Clone, Copy)]
pub struct BuildingChpSystem {
    chp: CHP,
    storage: GenericStorage,
    storage_hw: GenericStorage,
    boiler: Boiler,
    dispatch: Dispatch,
    control_mode: ControlMode,
    last_losses: i64,
}

/// Why a heating system cannot be designed.
#[derive(Debug, Clone, Copy, PartialEq, Eq, Structural)]
pub enum DesignError {
    /// The norm heating load or the hot-water number is out of range.
    Parameter,
    /// A storage could not be built from the design.
    Storage,
    /// The heat pump could not be sized.
    Sizing(SizingError),
}

/// One step of a combined heat and power system from `s0` to `s1` with the
/// given demands and temperatures, returning electrical power `e` and
/// thermal power supplied `t`; see [`BuildingChpSystem::step`].
pub open spec fn chp_step_spec(s0: BuildingChpSystem, s1: BuildingChpSystem, heating_demand: int, hot_water_demand: int, t_heat_lim: int, t_out_mean: int, e: int, t: int) -> bool {
    &&& s1.unit().thermal_power() == s0.unit().thermal_power()
    &&& s1.unit().electrical_power() == s0.unit().electrical_power()
    &&& s1.peak_boiler().power() == s0.peak_boiler().power()
    &&& s1.peak_boiler().efficiency_spec() == s0.peak_boiler().efficiency_spec()
    &&& s1.mode() == next_mode_spec(s0.mode(), t_heat_lim, t_out_mean, CHP_MODE_HALF_WIDTH as int)
    &&& s1.dispatch_state() == chp_dispatch_spec(
        s1.mode(),
        s0.dispatch_state(),
        s0.heating_storage().relative_charge(),
        s0.hot_water_storage().relative_charge(),
    )
    &&& ({
        let d = s1.dispatch_state();
        let chp_t = if d.primary { s0.unit().thermal_power() } else { 0 };
        let chp_e = if d.primary { s0.unit().electrical_power() } else { 0 };
        let boiler_t = if d.boiler { s0.peak_boiler().power() } else { 0 };
        let hw = s0.hot_water_storage();
        let hw_p = chp_t - hot_water_demand;
        let sh = s0.heating_storage();
        let sh_p = hw.step_result(hw_p).0 + boiler_t - heating_demand;
        &&& s1.hot_water_storage() == hw.after_step(hw_p)
        &&& s1.heating_storage() == sh.after_step(sh_p)
        &&& s1.losses() == hw.step_result(hw_p).1 + sh.step_result(sh_p).1
        &&& e == chp_e
        &&& t == heating_demand + hot_water_demand + sh.step_result(sh_p).0 + s1.losses()
    })
}

impl BuildingChpSystem {
    /// The space-heating storage.
    pub closed spec fn heating_storage(&self) -> StorageModel {
        self.storage@
    }

    /// The hot-water storage.
    pub closed spec fn hot_water_storage(&self) -> StorageModel {
        self.storage_hw@
    }

    /// The combined heat and power unit.
    pub closed spec fn unit(&self) -> CHP {
        self.chp
    }

    /// The peak-load boiler.
    pub closed spec fn peak_boiler(&self) -> Boiler {
        self.boiler
    }

    /// Current on/off flags.
    pub closed spec fn dispatch_state(&self) -> Dispatch {
        self.dispatch
    }

    /// Current control mode.
    pub closed spec fn mode(&self) -> ControlMode {
        self.control_mode
    }

    /// Storage losses of the last step, W.
    pub closed spec fn losses(&self) -> int {
        self.last_losses as int
    }

    /// Components well formed.
    pub open spec fn wf(&self) -> bool {
        &&& self.heating_storage().wf()
        &&& self.hot_water_storage().wf()
        &&& self.unit().wf()
        &&& self.peak_boiler().wf()
        &&& 0 <= self.losses() <= 4 * MAX_QUANTITY
    }

    /// Assembles a system from its components, in the given control mode
    /// with both sources off.
    pub fn from_parts(
        chp: CHP,
        storage: GenericStorage,
        storage_hw: GenericStorage,
        boiler: Boiler,
        control_mode: ControlMode,
    ) -> (r: BuildingChpSystem)
        requires
            chp.wf(),
            storage@.wf(),
            storage_hw@.wf(),
            boiler.wf(),
        ensures
            r.wf(),
            r.unit() == chp,
            r.heating_storage() == storage@,
            r.hot_water_storage() == storage_hw@,
            r.peak_boiler() == boiler,
            r.mode() == control_mode,
            r.dispatch_state() == (Dispatch { boiler: false, primary: false }),
            r.losses() == 0,
    {
        BuildingChpSystem {
            chp,
            storage,
            storage_hw,
            boiler,
            dispatch: Dispatch { boiler: false, primary: false },
            control_mode,
            last_losses: 0,
        }
    }

    /// Designs a system for a building of norm heating load `q_hln` (W) and
    /// hot-water characteristic number `n` (per mille). The unit covers a
    /// share of the load drawn in `[30%, 60%]`, the boiler the rest; the
    /// storages are standard tanks; their initial charges are drawn at random.
    pub fn new(q_hln: i64, n: i64) -> (r: Result<BuildingChpSystem, DesignError>)
        ensures
            !(0 <= q_hln <= MAX_QUANTITY && 0 <= n <= 1_000_000) ==> r == Err::<BuildingChpSystem, DesignError>(
                DesignError::Parameter,
            ),
            (0 <= q_hln <= MAX_QUANTITY && 0 <= n <= 1_000_000) ==> r is Ok,
            r matches Ok(s) ==> s.wf() && s.mode() == ControlMode::Intermediate && s.dispatch_state()
                == (Dispatch { boiler: false, primary: false }) && s.unit().thermal_power()
                + s.peak_boiler().power() == q_hln && s.heating_storage().pow_max == q_hln && s.losses() == 0
                && exists|f: int| CHP_SHARE_LOW <= f <= CHP_SHARE_HIGH && s.unit().thermal_power() == #[trigger] (f * q_hln / 1000),
    {
        if !(0 <= q_hln && q_hln <= MAX_QUANTITY && 0 <= n && n <= 1_000_000) {
            return Err(DesignError::Parameter);
        }
        let f_chp = draw_between(CHP_SHARE_LOW as u64, CHP_SHARE_HIGH as u64) as i64;
        assert(0 <= f_chp * q_hln <= PER_MILLE * MAX_QUANTITY) by (nonlinear_arith)
            requires 0 <= f_chp <= PER_MILLE, 0 <= q_hln <= MAX_QUANTITY;
        let pow_t_chp = f_chp * q_hln / PER_MILLE;
        assert(pow_t_chp <= q_hln) by {
            assert(f_chp * q_hln <= PER_MILLE * q_hln) by (nonlinear_arith)
                requires 0 <= f_chp <= PER_MILLE, 0 <= q_hln;
            vstd::arithmetic::div_mod::lemma_div_is_ordered(f_chp * q_hln, PER_MILLE * q_hln, PER_MILLE as int);
            vstd::arithmetic::div_mod::lemma_div_by_multiple(q_hln as int, PER_MILLE as int);
        }
        let pow_t_boiler = q_hln - pow_t_chp;
        let chp = match CHP::new(pow_t_chp) {
            Some(c) => c,
            None => return Err(DesignError::Parameter),
        };
        let boiler = match Boiler::new(pow_t_boiler) {
            Some(b) => b,
            None => return Err(DesignError::Parameter),
        };
        let (cap, volume) = find_heating_system_storage(pow_t_chp, HEATING_SPREAD);
        let self_loss = find_heat_storage_loss_parameter(volume, cap);
        let storage = match GenericStorage::new(cap, STORAGE_EFFICIENCY, STORAGE_EFFICIENCY, self_loss, q_hln) {
            Ok(s) => s,
            Err(_) => return Err(DesignError::Storage),
        };
        let cap_hw = find_hot_water_system_storage(n, HOT_WATER_SPREAD);
        let storage_hw = match GenericStorage::new(
            cap_hw,
            STORAGE_EFFICIENCY,
            STORAGE_EFFICIENCY,
            HOT_WATER_SELF_DISCHARGE,
            cap_hw / 2,
        ) {
            Ok(s) => s,
            Err(_) => return Err(DesignError::Storage),
        };
        Ok(BuildingChpSystem::from_parts(chp, storage, storage_hw, boiler, ControlMode::Intermediate))
    }

    /// Storage losses of the last step, W.
    pub fn get_losses(&self) -> (r: i64)
        ensures
            r == self.losses(),
    {
        self.last_losses
    }

    /// Current on/off flags.
    pub fn get_dispatch(&self) -> (r: Dispatch)
        ensures
            r == self.dispatch_state(),
    {
        self.dispatch
    }

    /// Current control mode.
    pub fn get_control_mode(&self) -> (r: ControlMode)
        ensures
            r == self.mode(),
    {
        self.control_mode
    }

    /// The space-heating storage.
    pub fn get_storage(&self) -> (r: GenericStorage)
        ensures
            r@ == self.heating_storage(),
    {
        self.storage
    }

    /// The hot-water storage.
    pub fn get_storage_hw(&self) -> (r: GenericStorage)
        ensures
            r@ == self.hot_water_storage(),
    {
        self.storage_hw
    }

    /// One step: updates the control mode and the flags, runs both sources,
    /// feeds the unit's heat net of the hot-water demand into the hot-water
    /// storage and what that storage could not take, plus the boiler's heat,
    /// net of the heating demand into the space-heating storage.
    ///
    /// Returns `(electrical power, thermal power supplied)` in W; the thermal
    /// power is the demand plus the space-heating storage's unmet power plus
    /// the losses of both storages.
    pub fn step(&mut self, heating_demand: i64, hot_water_demand: i64, t_heat_lim: i16, t_out_mean: i16) -> (r: (i64, i64))
        requires
            old(self).wf(),
            0 <= heating_demand <= MAX_QUANTITY,
            0 <= hot_water_demand <= MAX_QUANTITY,
        ensures
            final(self).wf(),
            chp_step_spec(*old(self), *final(self), heating_demand as int, hot_water_demand as int, t_heat_lim as int, t_out_mean as int, r.0 as int, r.1 as int),
            0 <= r.0 <= MAX_QUANTITY,
            0 <= r.1 <= 7 * MAX_QUANTITY,
    {
        let mode = update_control_mode(self.control_mode, t_heat_lim, t_out_mean, CHP_MODE_HALF_WIDTH);
        self.control_mode = mode;
        let r_sh = self.storage.get_relative_charge();
        let r_hw = self.storage_hw.get_relative_charge();
        self.dispatch = chp_dispatch(mode, self.dispatch, r_sh, r_hw);
        let (pow_e, chp_t, _fuel) = self.chp.step(self.dispatch.primary);
        let (boiler_t, _boiler_fuel) = self.boiler.step(self.dispatch.boiler);
        let (hw_diff, hw_loss) = self.storage_hw.step(chp_t - hot_water_demand);
        let (diff, loss) = self.storage.step(hw_diff + boiler_t - heating_demand);
        self.last_losses = hw_loss + loss;
        (pow_e, heating_demand + hot_water_demand + diff + self.last_losses)
    }
}

/// No chatter over two consecutive steps: where the control mode stays the
/// same, the hot-water charge seen at both steps lies strictly between its
/// low-low and high-high thresholds, and the space-heating charge seen at both
/// steps lies inside one band, the second step keeps the flags of the first.
pub proof fn lemma_chp_steps_no_chatter(
    s0: BuildingChpSystem,
    s1: BuildingChpSystem,
    s2: BuildingChpSystem,
    h1: int, w1: int, l1: int, m1: int, e1: int, t1: int,
    h2: int, w2: int, l2: int, m2: int, e2: int, t2: int,
)
    requires
        chp_step_spec(s0, s1, h1, w1, l1, m1, e1, t1),
        chp_step_spec(s1, s2, h2, w2, l2, m2, e2, t2),
        s2.mode() == s1.mode(),
        same_band(s0.heating_storage().relative_charge(), s1.heating_storage().relative_charge()),
        LEVEL_LL < s0.hot_water_storage().relative_charge() < LEVEL_HH,
        LEVEL_LL < s1.hot_water_storage().relative_charge() < LEVEL_HH,
    ensures
        s2.dispatch_state() == s1.dispatch_state(),
{
    lemma_chp_no_chatter(
        s1.mode(),
        s0.dispatch_state(),
        s0.heating_storage().relative_charge(),
        s0.hot_water_storage().relative_charge(),
        s1.heating_storage().relative_charge(),
        s1.hot_water_storage().relative_charge(),
    );
}

/// At or below the low-low threshold of the space-heating storage, a step
/// runs both the unit and the boiler, in every mode.
pub proof fn lemma_chp_low_charge_starts_both(
    s0: BuildingChpSystem,
    s1: BuildingChpSystem,
    h: int, w: int, l: int, m: int, e: int, t: int,
)
    requires
        chp_step_spec(s0, s1, h, w, l, m, e, t),
        s0.heating_storage().relative_charge() <= LEVEL_LL,
    ensures
        s1.dispatch_state() == (Dispatch { boiler: true, primary: true }),
{
}

} // verus!

//! Hysteresis control of heating systems: the seasonal control mode and the
//! on/off decisions driven by the relative charge of the storages.
use vstd::prelude::*;
use crate::units::PER_MILLE;

verus! {

/// Seasonal operating mode of a heating system.
#[derive(Debug, Clone, Copy, PartialEq, Eq, Structural)]
pub enum ControlMode {
    Winter,
    Intermediate,
    Summer,
}

/// Largest half-width (hundredths of a degree) of the mode hysteresis.
pub const MAX_HALF_WIDTH: i32 = 10_000;

/// Next control mode, from the running mean outdoor temperature `t_out_mean`,
/// the heat-limit temperature `t_heat_lim` and the hysteresis half-width `h`
/// (all in hundredths of a degree). A mode is left towards a warmer one above
/// `t_heat_lim - 0.8 h` (winter) or `t_heat_lim + 1.2 h` (intermediate), and
/// towards a colder one below `t_heat_lim - 1.2 h` (intermediate) or
/// `t_heat_lim + 0.8 h` (summer).
pub open spec fn next_mode_spec(mode: ControlMode, t_heat_lim: int, t_out_mean: int, h: int) -> ControlMode {
    match mode {
        ControlMode::Winter => if t_out_mean * 5 > t_heat_lim * 5 - 4 * h {
            ControlMode::Intermediate
        } else {
            ControlMode::Winter
        },
        ControlMode::Intermediate => if t_out_mean * 5 > t_heat_lim * 5 + 6 * h {
            ControlMode::Summer
        } else if t_out_mean * 5 < t_heat_lim * 5 - 6 * h {
            ControlMode::Winter
        } else {
            ControlMode::Intermediate
        },
        ControlMode::Summer => if t_out_mean * 5 < t_heat_lim * 5 + 4 * h {
            ControlMode::Intermediate
        } else {
            ControlMode::Summer
        },
    }
}

/// Computes the next control mode; see [`next_mode_spec`].
pub fn update_control_mode(mode: ControlMode, t_heat_lim: i16, t_out_mean: i16, h: i32) -> (r: ControlMode)
    requires
        0 <= h <= MAX_HALF_WIDTH,
    ensures
        r == next_mode_spec(mode, t_heat_lim as int, t_out_mean as int, h as int),
{
    let lim = t_heat_lim as i32 * 5;
    let mean = t_out_mean as i32 * 5;
    match mode {
        ControlMode::Winter => if mean > lim - 4 * h {
            ControlMode::Intermediate
        } else {
            ControlMode::Winter
        },
        ControlMode::Intermediate => if mean > lim + 6 * h {
            ControlMode::Summer
        } else if mean < lim - 6 * h {
            ControlMode::Winter
        } else {
            ControlMode::Intermediate
        },
        ControlMode::Summer => if mean < lim + 4 * h {
            ControlMode::Intermediate
        } else {
            ControlMode::Summer
        },
    }
}

/// A mode change from the running mean temperature needs it to cross a band
/// edge: the mode stays when the temperature lies within the band of that mode.
pub proof fn lemma_mode_hysteresis(mode: ControlMode, t_heat_lim: int, t_out_mean: int, h: int)
    requires
        0 <= h,
    ensures
        mode == ControlMode::Winter && t_out_mean * 5 <= t_heat_lim * 5 - 4 * h ==> next_mode_spec(
            mode,
            t_heat_lim,
            t_out_mean,
            h,
        ) == mode,
        mode == ControlMode::Summer && t_out_mean * 5 >= t_heat_lim * 5 + 4 * h ==> next_mode_spec(
            mode,
            t_heat_lim,
            t_out_mean,
            h,
        ) == mode,
        mode == ControlMode::Intermediate && t_heat_lim * 5 - 6 * h <= t_out_mean * 5 <= t_heat_lim
            * 5 + 6 * h ==> next_mode_spec(mode, t_heat_lim, t_out_mean, h) == mode,
{
}

/// On/off flags of the peak-load boiler and of the primary source.
#[derive(Debug, Clone, Copy, PartialEq, Eq, Structural)]
pub struct Dispatch {
    pub boiler: bool,
    pub primary: bool,
}

/// Thresholds (per mille of relative charge) of the space-heating storage,
/// shared by both heating systems, and the low and high thresholds of the
/// hot-water storage.
pub const LEVEL_LL: i64 = 50;
pub const LEVEL_L: i64 = 200;
pub const LEVEL_H: i64 = 300;
pub const LEVEL_HH: i64 = 950;

/// Decision from the relative charges (per mille) of the space-heating
/// storage `r` and of the hot-water storage `r_hw`.
///
/// At or below the low-low threshold both sources run, in every mode. Else
/// the hot-water storage has priority: at or below its low-low threshold the
/// primary source runs, and in winter the boiler too. Else, at or above the
/// high-high threshold both stop. Below it, in winter: at or below the low
/// threshold a stopped primary source starts and the boiler stops; at or
/// above the high threshold a running boiler stops and the primary source
/// runs. In the intermediate mode the boiler is off and the primary source
/// stops at the high threshold once the hot water is full; in summer the
/// boiler is off and the primary source stops once the hot water is full.
pub open spec fn chp_dispatch_spec(mode: ControlMode, s: Dispatch, r: int, r_hw: int) -> Dispatch {
    if r <= LEVEL_LL {
        Dispatch { boiler: true, primary: true }
    } else if r_hw <= LEVEL_LL {
        Dispatch {
            boiler: mode == ControlMode::Winter,
            primary: true,
        }
    } else if r >= LEVEL_HH {
        Dispatch { boiler: false, primary: false }
    } else {
        match mode {
            ControlMode::Winter => if r <= LEVEL_L && !s.primary {
                Dispatch { boiler: false, primary: true }
            } else if r >= LEVEL_H && s.boiler {
                Dispatch { boiler: false, primary: true }
            } else {
                s
            },
            ControlMode::Intermediate => Dispatch {
                boiler: false,
                primary: if r >= LEVEL_H && r_hw >= LEVEL_HH { false } else { s.primary },
            },
            ControlMode::Summer => Dispatch {
                boiler: false,
                primary: if r_hw >= LEVEL_HH { false } else { s.primary },
            },
        }
    }
}

/// Decides which sources run; see [`chp_dispatch_spec`].
pub fn chp_dispatch(mode: ControlMode, s: Dispatch, r: i64, r_hw: i64) -> (d: Dispatch)
    ensures
        d == chp_dispatch_spec(mode, s, r as int, r_hw as int),
{
    if r <= LEVEL_LL {
        return Dispatch { boiler: true, primary: true };
    }
    if r_hw <= LEVEL_LL {
        let boiler = match mode {
            ControlMode::Winter => true,
            _ => false,
        };
        return Dispatch { boiler, primary: true };
    }
    if r >= LEVEL_HH {
        return Dispatch { boiler: false, primary: false };
    }
    match mode {
        ControlMode::Winter => {
            if r <= LEVEL_L && !s.primary {
                Dispatch { boiler: false, primary: true }
            } else if r >= LEVEL_H && s.boiler {
                Dispatch { boiler: false, primary: true }
            } else {
                s
            }
        },
        ControlMode::Intermediate => {
            let primary = if r >= LEVEL_H && r_hw >= LEVEL_HH {
                false
            } else {
                s.primary
            };
            Dispatch { boiler: false, primary }
        },
        ControlMode::Summer => {
            let primary = if r_hw >= LEVEL_HH {
                false
            } else {
                s.primary
            };
            Dispatch { boiler: false, primary }
        },
    }
}

/// `r1` and `r2` lie strictly inside one band between two consecutive
/// thresholds of the space-heating storage.
pub open spec fn same_band(r1: int, r2: int) -> bool {
    ||| (LEVEL_LL < r1 < LEVEL_L && LEVEL_LL < r2 < LEVEL_L)
    ||| (LEVEL_L < r1 < LEVEL_H && LEVEL_L < r2 < LEVEL_H)
    ||| (LEVEL_H < r1 < LEVEL_HH && LEVEL_H < r2 < LEVEL_HH)
}

/// No chatter: after one decision with the space-heating charge inside a
/// band, a second decision in the same mode with the charge still inside
/// that band changes nothing, while the hot-water charge stays strictly
/// between its low-low and high-high thresholds.
pub proof fn lemma_chp_no_chatter(mode: ControlMode, s: Dispatch, r1: int, r_hw1: int, r2: int, r_hw2: int)
    requires
        same_band(r1, r2),
        LEVEL_LL < r_hw1 < LEVEL_HH,
        LEVEL_LL < r_hw2 < LEVEL_HH,
    ensures
        chp_dispatch_spec(mode, chp_dispatch_spec(mode, s, r1, r_hw1), r2, r_hw2)
            == chp_dispatch_spec(mode, s, r1, r_hw1),
{
}

/// Modulation (per mille) of a heat pump at full load.
pub const HP_FULL_LOAD: i64 = 1000;

/// Modulation (per mille) of a heat pump at its minimum partial load.
pub const HP_MIN_LOAD: i64 = 200;

/// Boiler flag and heat-pump modulation (per mille) of a heat-pump system.
#[derive(Debug, Clone, Copy, PartialEq, Eq, Structural)]
pub struct HeatpumpDispatch {
    pub boiler: bool,
    pub modulation: i64,
}

/// Decision of the heat-pump system from the relative charge `r` (per mille)
/// of its storage: the rules of [`chp_dispatch_spec`] with the heat pump as
/// primary source, at full load when running, and no hot-water storage.
pub open spec fn hp_dispatch_spec(mode: ControlMode, s: HeatpumpDispatch, r: int) -> HeatpumpDispatch {
    let d = chp_dispatch_spec(mode, Dispatch { boiler: s.boiler, primary: s.modulation > 0 }, r, PER_MILLE as int);
    HeatpumpDispatch { boiler: d.boiler, modulation: if d.primary { HP_FULL_LOAD } else { 0i64 } }
}

/// Decides boiler and heat-pump operation; see [`hp_dispatch_spec`].
pub fn hp_dispatch(mode: ControlMode, s: HeatpumpDispatch, r: i64) -> (d: HeatpumpDispatch)
    ensures
        d == hp_dispatch_spec(mode, s, r as int),
{
    let d = chp_dispatch(mode, Dispatch { boiler: s.boiler, primary: s.modulation > 0 }, r, PER_MILLE);
    HeatpumpDispatch {
        boiler: d.boiler,
        modulation: if d.primary {
            HP_FULL_LOAD
        } else {
            0
        },
    }
}

/// No chatter for the heat-pump system: after one decision with the charge
/// inside a band, a second decision in the same mode with the charge still
/// inside that band changes nothing.
pub proof fn lemma_hp_no_chatter(mode: ControlMode, s: HeatpumpDispatch, r1: int, r2: int)
    requires
        same_band(r1, r2),
    ensures
        hp_dispatch_spec(mode, hp_dispatch_spec(mode, s, r1), r2) == hp_dispatch_spec(mode, s, r1),
{
}

/// A heat-led controller for an external control loop: it alternates the
/// unit's state every step; the heat pump stays enabled.
#[derive(Debug, Clone, Copy, PartialEq, Eq, Structural)]
pub struct Controller {
    pub chp_state: bool,
    pub heatpump_state: bool,
}

impl Controller {
    /// Unit off, heat pump enabled.
    pub fn new() -> (r: Controller)
        ensures
            r == (Controller { chp_state: false, heatpump_state: true }),
    {
        Controller { chp_state: false, heatpump_state: true }
    }

    /// The unit's state.
    pub fn get_chp_state(&self) -> (r: bool)
        ensures
            r == self.chp_state,
    {
        self.chp_state
    }

    /// Decides the unit's state for the next step: on after off, off after on.
    pub fn step(&mut self)
        ensures
            final(self).chp_state == !old(self).chp_state,
            final(self).heatpump_state == old(self).heatpump_state,
    {
        self.chp_state = !self.chp_state;
    }
}

} // verus!

//! A combined heat and power unit that is either off or runs at its nominal power.
use vstd::prelude::*;
use crate::units::{MAX_QUANTITY, PER_MILLE};

verus! {

/// Electrical power of a unit as a share of its thermal power, per mille.
pub const CHP_POWER_RATIO: i64 = 500;

/// Total efficiency (electrical plus thermal output over fuel), per mille.
pub const CHP_TOTAL_EFFICIENCY: i64 = 900;

/// A combined heat and power unit.
#[derive(Debug, Clone, Copy)]
pub struct CHP {
    pow_e: i64,
    pow_t: i64,
    state: bool,
}

/// Electrical power (W) of a unit of thermal power `pow_t` (W).
pub open spec fn chp_electrical_spec(pow_t: int) -> int {
    pow_t * CHP_POWER_RATIO as int / PER_MILLE as int
}

/// Fuel power (W) that yields electrical power `pow_e` and thermal power `pow_t`.
pub open spec fn chp_fuel_spec(pow_e: int, pow_t: int) -> int {
    (pow_e + pow_t) * PER_MILLE as int / CHP_TOTAL_EFFICIENCY as int
}

impl CHP {
    /// Nominal thermal power in W.
    pub closed spec fn thermal_power(&self) -> int {
        self.pow_t as int
    }

    /// Nominal electrical power in W.
    pub closed spec fn electrical_power(&self) -> int {
        self.pow_e as int
    }

    /// Last commanded state.
    pub closed spec fn is_on(&self) -> bool {
        self.state
    }

    /// Powers in range, electrical power in its design ratio.
    pub open spec fn wf(&self) -> bool {
        &&& 0 <= self.thermal_power() <= MAX_QUANTITY
        &&& self.electrical_power() == chp_electrical_spec(self.thermal_power())
    }

    /// Creates a unit of the given thermal power (W); `None` where it is
    /// negative or too large.
    pub fn new(power_t: i64) -> (r: Option<CHP>)
        ensures
            r is Some <==> 0 <= power_t <= MAX_QUANTITY,
            r matches Some(c) ==> c.wf() && c.thermal_power() == power_t && !c.is_on(),
    {
        if 0 <= power_t && power_t <= MAX_QUANTITY {
            Some(CHP { pow_e: power_t * CHP_POWER_RATIO / PER_MILLE, pow_t: power_t, state: false })
        } else {
            None
        }
    }

    /// Nominal thermal power in W.
    pub fn get_thermal_power(&self) -> (r: i64)
        ensures
            r == self.thermal_power(),
    {
        self.pow_t
    }

    /// Switches the unit on or off; returns `(electrical, thermal, fuel)`
    /// power in W, all zero when off.
    pub fn step(&mut self, state: bool) -> (r: (i64, i64, i64))
        requires
            old(self).wf(),
        ensures
            final(self).wf(),
            final(self).is_on() == state,
            final(self).thermal_power() == old(self).thermal_power(),
            r.0 == (if state { old(self).electrical_power() } else { 0 }),
            r.1 == (if state { old(self).thermal_power() } else { 0 }),
            r.2 == chp_fuel_spec(r.0 as int, r.1 as int),
            0 <= r.0 <= r.1,
    {
        self.state = state;
        if state {
            (self.pow_e, self.pow_t, (self.pow_e + self.pow_t) * PER_MILLE / CHP_TOTAL_EFFICIENCY)
        } else {
            (0, 0, 0)
        }
    }
}

} // verus!

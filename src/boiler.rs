//! A fuel boiler that is either off or runs at its nominal thermal power.
use vstd::prelude::*;
use crate::units::{MAX_QUANTITY, PER_MILLE};
use crate::random::draw_between;

verus! {

/// Lowest total efficiency, per mille, that a boiler is built with at random.
pub const BOILER_EFFICIENCY_LOW: i64 = 800;

/// Highest total efficiency, per mille, that a boiler is built with at random.
pub const BOILER_EFFICIENCY_HIGH: i64 = 900;

/// Fuel power (W) needed for thermal power `pow_t` at efficiency `efficiency` (per mille).
pub open spec fn fuel_spec(pow_t: int, efficiency: int) -> int {
    pow_t * PER_MILLE as int / efficiency
}

/// A boiler with its nominal thermal power (W) and total efficiency (per mille).
#[derive(Debug, Clone, Copy)]
pub struct Boiler {
    pow_t: i64,
    state: bool,
    efficiency: i64,
}

impl Boiler {
    /// Nominal thermal power in W.
    pub closed spec fn power(&self) -> int {
        self.pow_t as int
    }

    /// Total efficiency in per mille.
    pub closed spec fn efficiency_spec(&self) -> int {
        self.efficiency as int
    }

    /// Last commanded state.
    pub closed spec fn is_on(&self) -> bool {
        self.state
    }

    /// Power and efficiency in range.
    pub open spec fn wf(&self) -> bool {
        &&& 0 <= self.power() <= MAX_QUANTITY
        &&& 0 < self.efficiency_spec() <= PER_MILLE
    }

    /// Creates a boiler of the given thermal power and efficiency; `None`
    /// where the power is negative or too large or the efficiency lies
    /// outside `(0, 1000]` per mille.
    pub fn with_efficiency(pow: i64, efficiency: i64) -> (r: Option<Boiler>)
        ensures
            r is Some <==> (0 <= pow <= MAX_QUANTITY && 0 < efficiency <= PER_MILLE),
            r matches Some(b) ==> b.wf() && b.power() == pow && b.efficiency_spec() == efficiency
                && !b.is_on(),
    {
        if 0 <= pow && pow <= MAX_QUANTITY && 0 < efficiency && efficiency <= PER_MILLE {
            Some(Boiler { pow_t: pow, state: false, efficiency })
        } else {
            None
        }
    }

    /// Creates a boiler whose efficiency is drawn at random in `[800, 900]`
    /// per mille; `None` where the power is negative or too large.
    pub fn new(pow: i64) -> (r: Option<Boiler>)
        ensures
            r is Some <==> 0 <= pow <= MAX_QUANTITY,
            r matches Some(b) ==> b.wf() && b.power() == pow && BOILER_EFFICIENCY_LOW
                <= b.efficiency_spec() <= BOILER_EFFICIENCY_HIGH && !b.is_on(),
    {
        let efficiency = draw_between(BOILER_EFFICIENCY_LOW as u64, BOILER_EFFICIENCY_HIGH as u64);
        Boiler::with_efficiency(pow, efficiency as i64)
    }

    /// Replaces the efficiency; returns false and changes nothing where it
    /// lies outside `(0, 1000]` per mille.
    pub fn set_efficiency(&mut self, efficiency: i64) -> (r: bool)
        ensures
            r == (0 < efficiency <= PER_MILLE),
            r ==> final(self).efficiency_spec() == efficiency,
            !r ==> final(self).efficiency_spec() == old(self).efficiency_spec(),
            final(self).power() == old(self).power(),
            final(self).is_on() == old(self).is_on(),
    {
        if 0 < efficiency && efficiency <= PER_MILLE {
            self.efficiency = efficiency;
            true
        } else {
            false
        }
    }

    /// Nominal thermal power in W.
    pub fn get_power(&self) -> (r: i64)
        ensures
            r == self.power(),
    {
        self.pow_t
    }

    /// Fuel power (W) needed to provide the thermal power `pow_t` (W).
    pub fn get_fuel(&self, pow_t: i64) -> (r: i64)
        requires
            self.wf(),
            0 <= pow_t <= MAX_QUANTITY,
        ensures
            r == fuel_spec(pow_t as int, self.efficiency_spec()),
            r >= pow_t,
    {
        proof {
            lemma_fuel_bounds(pow_t as int, self.efficiency as int);
        }
        pow_t * PER_MILLE / self.efficiency
    }

    /// Switches the boiler on or off; returns `(thermal power, fuel power)`,
    /// both zero when off.
    pub fn step(&mut self, state: bool) -> (r: (i64, i64))
        requires
            old(self).wf(),
        ensures
            final(self).wf(),
            final(self).is_on() == state,
            final(self).power() == old(self).power(),
            final(self).efficiency_spec() == old(self).efficiency_spec(),
            r.0 == (if state { old(self).power() } else { 0 }),
            r.1 == fuel_spec(r.0 as int, old(self).efficiency_spec()),
    {
        self.state = state;
        let pow_t = if state {
            self.pow_t
        } else {
            0
        };
        let fuel = self.get_fuel(pow_t);
        (pow_t, fuel)
    }
}

/// Fuel power is at least the thermal power and fits the machine.
pub proof fn lemma_fuel_bounds(pow_t: int, efficiency: int)
    requires
        0 <= pow_t <= MAX_QUANTITY,
        0 < efficiency <= PER_MILLE,
    ensures
        pow_t <= fuel_spec(pow_t, efficiency) <= pow_t * PER_MILLE,
{
    assert(pow_t * efficiency <= pow_t * PER_MILLE) by (nonlinear_arith)
        requires
            0 <= pow_t,
            efficiency <= PER_MILLE,
    ;
    vstd::arithmetic::div_mod::lemma_div_by_multiple(pow_t, efficiency);
    vstd::arithmetic::div_mod::lemma_div_is_ordered(pow_t * efficiency, pow_t * PER_MILLE, efficiency);
    vstd::arithmetic::div_mod::lemma_div_is_ordered_by_denominator(pow_t * PER_MILLE, 1, efficiency);
}

} // verus!

//! Fixed units and conversions shared by all components.
use vstd::prelude::*;

verus! {

/// Simulation steps per hour: one step lasts a quarter hour.
pub const STEPS_PER_HOUR: i64 = 4;

/// Denominator of every per-mille value (efficiencies, relative charges).
pub const PER_MILLE: i64 = 1000;

/// Denominator of rates given in parts per million.
pub const PER_MILLION: i64 = 1_000_000;

/// Largest energy (watt-steps) and power (W) that a component may be built with.
pub const MAX_QUANTITY: i64 = 1_000_000_000_000;

/// Energy in watt-steps of a quantity given in watt-hours.
pub open spec fn wh_spec(wh: int) -> int {
    wh * STEPS_PER_HOUR
}

/// Converts watt-hours into watt-steps.
pub fn energy_from_wh(wh: i64) -> (r: i64)
    requires
        -MAX_QUANTITY <= wh <= MAX_QUANTITY,
    ensures
        r == wh_spec(wh as int),
{
    wh * STEPS_PER_HOUR
}

/// Largest magnitude of a dividend of [`floor_div`].
pub const FLOOR_DIV_BOUND: i128 = 10_000_000_000_000_000_000_000_000_000_000_000;

/// Floor of `a / b` for positive `b`.
pub fn floor_div(a: i128, b: i128) -> (r: i128)
    requires
        b > 0,
        -FLOOR_DIV_BOUND <= a <= FLOOR_DIV_BOUND,
    ensures
        r == a / b,
        a >= 0 ==> 0 <= r <= a,
        a < 0 ==> a <= r < 0,
{
    if a >= 0 {
        proof {
            vstd::arithmetic::div_mod::lemma_div_pos_is_pos(a as int, b as int);
            vstd::arithmetic::div_mod::lemma_div_is_ordered_by_denominator(a as int, 1, b as int);
        }
        a / b
    } else {
        let q = (-a) / b;
        let ghost na: int = -a;
        let ghost rem: int = na % (b as int);
        proof {
            vstd::arithmetic::div_mod::lemma_fundamental_div_mod(na, b as int);
            vstd::arithmetic::div_mod::lemma_div_pos_is_pos(na, b as int);
        }
        assert(q == na / (b as int));
        assert(q * b == na - rem) by (nonlinear_arith)
            requires na == (b as int) * q + rem;
        assert(q <= q * b) by (nonlinear_arith)
            requires q >= 0, b >= 1;
        if q * b == -a {
            proof {
                assert((-q) * b + 0 == a) by (nonlinear_arith)
                    requires q * b == -a;
                vstd::arithmetic::div_mod::lemma_fundamental_div_mod_converse_div(a as int, b as int, -q as int, 0);
            }
            -q
        } else {
            proof {
                assert((-q - 1) * b + (b - rem) == a) by (nonlinear_arith)
                    requires q * b == na - rem, na == -a;
                vstd::arithmetic::div_mod::lemma_fundamental_div_mod_converse_div(a as int, b as int, -q - 1, b - rem);
            }
            -q - 1
        }
    }
}

} // verus!

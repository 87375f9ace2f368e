//! An air-source heat pump with temperature-dependent output and coefficient
//! of performance, from empirical biquadratic correlations.
//!
//! Correlation coefficients are stored times 1e5; temperatures are in
//! hundredths of a degree. With these scales a correlation evaluates exactly
//! to its value times 1e9 ([`CORRELATION_SCALE`]).
use vstd::prelude::*;
use crate::units::{MAX_QUANTITY, PER_MILLE, floor_div};
use crate::control::{HP_FULL_LOAD, HP_MIN_LOAD};

verus! {

/// Scale of a correlation value: 1e9 stands for 1.
pub const CORRELATION_SCALE: i64 = 1_000_000_000;

/// Nominal thermal power (W) below which the small-unit coefficients apply.
pub const SMALL_UNIT_POWER: i64 = 18_000;

/// Nominal thermal power (W) below which the medium-unit coefficients apply.
pub const MEDIUM_UNIT_POWER: i64 = 35_000;

/// Outdoor temperature (hundredths of a degree) below which the cold-band coefficients apply.
pub const COLD_BAND: i16 = 700;

/// Outdoor temperature (hundredths of a degree) below which the mild-band coefficients apply.
pub const MILD_BAND: i16 = 1000;

/// Six correlation coefficients times 1e5: constant, supply, outdoor,
/// supply times outdoor, supply squared, outdoor squared.
pub type Coefficients = (i64, i64, i64, i64, i64, i64);

/// Value times 1e9 of the correlation `c` at supply temperature `ts` and
/// outdoor temperature `to`, both in hundredths of a degree.
pub open spec fn biquadratic(c: Coefficients, ts: int, to: int) -> int {
    c.0 * 10_000 + c.1 * ts * 100 + c.2 * to * 100 + c.3 * ts * to + c.4 * ts * ts + c.5 * to * to
}

/// Index (0, 1, 2) of the power band of a unit of nominal thermal power `pow_t`.
pub open spec fn power_band(pow_t: int) -> int {
    if pow_t < SMALL_UNIT_POWER { 0 } else if pow_t < MEDIUM_UNIT_POWER { 1 } else { 2 }
}

/// Index (0, 1, 2) of the temperature band of outdoor temperature `t_out`.
pub open spec fn temperature_band(t_out: int) -> int {
    if t_out < COLD_BAND { 0 } else if t_out < MILD_BAND { 1 } else { 2 }
}

/// Coefficient sets of the coefficient of performance, by power band and temperature band.
pub open spec fn cop_table(p: int, t: int) -> Coefficients {
    if p == 0 {
        if t == 0 { (539800i64, -5601i64, 14818i64, -185i64, 0i64, 80i64) }
        else if t == 1 { (622734i64, -7497i64, 7841i64, 0i64, 0i64, 0i64) }
        else { (559461i64, -6710i64, 17291i64, -97i64, 0i64, -206i64) }
    } else if p == 1 {
        if t == 0 { (479304i64, -4132i64, 5651i64, 0i64, 0i64, 0i64) }
        else if t == 1 { (634439i64, -10430i64, 7510i64, -16i64, 59i64, 0i64) }
        else { (507629i64, -4833i64, 9969i64, -96i64, 9i64, 0i64) }
    } else {
        if t == 0 { (628133i64, -10087i64, 11251i64, -97i64, 56i64, 69i64) }
        else if t == 1 { (623384i64, -9963i64, 11295i64, -61i64, 52i64, 0i64) }
        else { (500190i64, -4138i64, 10137i64, -112i64, 0i64, 27i64) }
    }
}

/// Coefficient sets of the thermal power factor, by power band and temperature band.
pub open spec fn q_table(p: int, t: int) -> Coefficients {
    if p == 0 {
        if t == 0 { (104213i64, -234i64, 3152i64, -19i64, 0i64, 0i64) }
        else if t == 1 { (102701i64, -366i64, 3202i64, 3i64, 0i64, 0i64) }
        else { (81917i64, -301i64, 6510i64, -3i64, 0i64, -112i64) }
    } else if p == 1 {
        if t == 0 { (103825i64, -223i64, 2272i64, 0i64, 0i64, 0i64) }
        else if t == 1 { (93526i64, -50i64, 3926i64, -21i64, 0i64, 0i64) }
        else { (79796i64, 5i64, 5928i64, -26i64, 0i64, -66i64) }
    } else {
        if t == 0 { (110902i64, -478i64, 2136i64, 19i64, 0i64, 0i64) }
        else if t == 1 { (108294i64, -438i64, 3386i64, 0i64, 0i64, 0i64) }
        else { (110262i64, -316i64, 2950i64, -9i64, 0i64, 8i64) }
    }
}

/// Coefficient of performance times 1e9 of a unit of nominal power `pow_t`.
pub open spec fn cop_spec(pow_t: int, t_out: int, t_supply: int) -> int {
    biquadratic(cop_table(power_band(pow_t), temperature_band(t_out)), t_supply, t_out)
}

/// Thermal power factor times 1e9 of a unit of nominal power `pow_t`.
pub open spec fn q_spec(pow_t: int, t_out: int, t_supply: int) -> int {
    biquadratic(q_table(power_band(pow_t), temperature_band(t_out)), t_supply, t_out)
}

/// Every coefficient is at most 1e6 in magnitude.
pub open spec fn small_coefficients(c: Coefficients) -> bool {
    &&& -1_000_000 <= c.0 <= 1_000_000
    &&& -1_000_000 <= c.1 <= 1_000_000
    &&& -1_000_000 <= c.2 <= 1_000_000
    &&& -1_000_000 <= c.3 <= 1_000_000
    &&& -1_000_000 <= c.4 <= 1_000_000
    &&& -1_000_000 <= c.5 <= 1_000_000
}

/// Largest magnitude of a correlation value on 16-bit temperatures.
pub const CORRELATION_BOUND: i64 = 4_000_000_000_000_000;

/// On 16-bit temperatures a correlation with small coefficients stays below
/// [`CORRELATION_BOUND`].
pub proof fn lemma_biquadratic_bounds(c: Coefficients, ts: int, to: int)
    requires
        small_coefficients(c),
        -32768 <= ts <= 32767,
        -32768 <= to <= 32767,
    ensures
        -CORRELATION_BOUND <= biquadratic(c, ts, to) <= CORRELATION_BOUND,
{
    assert(-1_000_000 * 3_276_800 <= c.1 * ts * 100 <= 1_000_000 * 3_276_800) by (nonlinear_arith)
        requires -1_000_000 <= c.1 <= 1_000_000, -32768 <= ts <= 32767;
    assert(-1_000_000 * 3_276_800 <= c.2 * to * 100 <= 1_000_000 * 3_276_800) by (nonlinear_arith)
        requires -1_000_000 <= c.2 <= 1_000_000, -32768 <= to <= 32767;
    assert(-32768 * 32768 <= ts * to <= 32768 * 32768) by (nonlinear_arith)
        requires -32768 <= ts <= 32767, -32768 <= to <= 32767;
    assert(0 <= ts * ts <= 32768 * 32768) by (nonlinear_arith)
        requires -32768 <= ts <= 32767;
    assert(0 <= to * to <= 32768 * 32768) by (nonlinear_arith)
        requires -32768 <= to <= 32767;
    let b: int = 1_073_741_824;
    assert(-1_000_000 * b <= c.3 * (ts * to) <= 1_000_000 * b) by (nonlinear_arith)
        requires -1_000_000 <= c.3 <= 1_000_000, -b <= ts * to <= b;
    assert(-1_000_000 * b <= c.4 * (ts * ts) <= 1_000_000 * b) by (nonlinear_arith)
        requires -1_000_000 <= c.4 <= 1_000_000, 0 <= ts * ts <= b;
    assert(-1_000_000 * b <= c.5 * (to * to) <= 1_000_000 * b) by (nonlinear_arith)
        requires -1_000_000 <= c.5 <= 1_000_000, 0 <= to * to <= b;
    assert(c.3 * ts * to == c.3 * (ts * to)) by (nonlinear_arith);
    assert(c.4 * ts * ts == c.4 * (ts * ts)) by (nonlinear_arith);
    assert(c.5 * to * to == c.5 * (to * to)) by (nonlinear_arith);
}

/// Evaluates a correlation exactly; see [`biquadratic`].
pub fn evaluate(c: Coefficients, ts: i16, to: i16) -> (r: i64)
    requires
        small_coefficients(c),
    ensures
        r == biquadratic(c, ts as int, to as int),
        -CORRELATION_BOUND <= r <= CORRELATION_BOUND,
{
    proof {
        lemma_biquadratic_bounds(c, ts as int, to as int);
        let (a, b) = (ts as int, to as int);
        assert(-1_000_000 * 3_276_800 <= c.1 * a * 100 <= 1_000_000 * 3_276_800) by (nonlinear_arith)
            requires -1_000_000 <= c.1 <= 1_000_000, -32768 <= a <= 32767;
        assert(-1_000_000 * 3_276_800 <= c.2 * b * 100 <= 1_000_000 * 3_276_800) by (nonlinear_arith)
            requires -1_000_000 <= c.2 <= 1_000_000, -32768 <= b <= 32767;
        assert(-1_000_000 * 1_073_741_824 <= c.3 * a * b <= 1_000_000 * 1_073_741_824) by (nonlinear_arith)
            requires -1_000_000 <= c.3 <= 1_000_000, -32768 <= a <= 32767, -32768 <= b <= 32767;
        assert(-1_000_000 * 1_073_741_824 <= c.4 * a * a <= 1_000_000 * 1_073_741_824) by (nonlinear_arith)
            requires -1_000_000 <= c.4 <= 1_000_000, -32768 <= a <= 32767;
        assert(-1_000_000 * 1_073_741_824 <= c.5 * b * b <= 1_000_000 * 1_073_741_824) by (nonlinear_arith)
            requires -1_000_000 <= c.5 <= 1_000_000, -32768 <= b <= 32767;
        assert(-1_000_000 * 32768 <= c.3 * a <= 1_000_000 * 32768) by (nonlinear_arith)
            requires -1_000_000 <= c.3 <= 1_000_000, -32768 <= a <= 32767;
        assert(-1_000_000 * 32768 <= c.4 * a <= 1_000_000 * 32768) by (nonlinear_arith)
            requires -1_000_000 <= c.4 <= 1_000_000, -32768 <= a <= 32767;
        assert(-1_000_000 * 32768 <= c.5 * b <= 1_000_000 * 32768) by (nonlinear_arith)
            requires -1_000_000 <= c.5 <= 1_000_000, -32768 <= b <= 32767;
        assert(-1_000_000 * 32768 <= c.1 * a <= 1_000_000 * 32768) by (nonlinear_arith)
            requires -1_000_000 <= c.1 <= 1_000_000, -32768 <= a <= 32767;
        assert(-1_000_000 * 32768 <= c.2 * b <= 1_000_000 * 32768) by (nonlinear_arith)
            requires -1_000_000 <= c.2 <= 1_000_000, -32768 <= b <= 32767;
    }
    let s = ts as i64;
    let o = to as i64;
    c.0 * 10_000 + c.1 * s * 100 + c.2 * o * 100 + c.3 * s * o + c.4 * s * s + c.5 * o * o
}

/// The coefficient set of the coefficient of performance; see [`cop_table`].
pub fn cop_coefficients(pow_t: i64, t_out: i16) -> (c: Coefficients)
    ensures
        c == cop_table(power_band(pow_t as int), temperature_band(t_out as int)),
        small_coefficients(c),
{
    if pow_t < SMALL_UNIT_POWER {
        if t_out < COLD_BAND { (539800, -5601, 14818, -185, 0, 80) }
        else if t_out < MILD_BAND { (622734, -7497, 7841, 0, 0, 0) }
        else { (559461, -6710, 17291, -97, 0, -206) }
    } else if pow_t < MEDIUM_UNIT_POWER {
        if t_out < COLD_BAND { (479304, -4132, 5651, 0, 0, 0) }
        else if t_out < MILD_BAND { (634439, -10430, 7510, -16, 59, 0) }
        else { (507629, -4833, 9969, -96, 9, 0) }
    } else {
        if t_out < COLD_BAND { (628133, -10087, 11251, -97, 56, 69) }
        else if t_out < MILD_BAND { (623384, -9963, 11295, -61, 52, 0) }
        else { (500190, -4138, 10137, -112, 0, 27) }
    }
}

/// The coefficient set of the thermal power factor; see [`q_table`].
pub fn q_coefficients(pow_t: i64, t_out: i16) -> (c: Coefficients)
    ensures
        c == q_table(power_band(pow_t as int), temperature_band(t_out as int)),
        small_coefficients(c),
{
    if pow_t < SMALL_UNIT_POWER {
        if t_out < COLD_BAND { (104213, -234, 3152, -19, 0, 0) }
        else if t_out < MILD_BAND { (102701, -366, 3202, 3, 0, 0) }
        else { (81917, -301, 6510, -3, 0, -112) }
    } else if pow_t < MEDIUM_UNIT_POWER {
        if t_out < COLD_BAND { (103825, -223, 2272, 0, 0, 0) }
        else if t_out < MILD_BAND { (93526, -50, 3926, -21, 0, 0) }
        else { (79796, 5, 5928, -26, 0, -66) }
    } else {
        if t_out < COLD_BAND { (110902, -478, 2136, 19, 0, 0) }
        else if t_out < MILD_BAND { (108294, -438, 3386, 0, 0, 0) }
        else { (110262, -316, 2950, -9, 0, 8) }
    }
}

/// Coefficient of performance times 1e9 of a unit of nominal thermal power
/// `pow_t` (W) at outdoor temperature `t_out` and supply temperature `t_supply`.
pub fn cop_from_coefficients(pow_t: i64, t_out: i16, t_supply: i16) -> (r: i64)
    ensures
        r == cop_spec(pow_t as int, t_out as int, t_supply as int),
        -CORRELATION_BOUND <= r <= CORRELATION_BOUND,
{
    evaluate(cop_coefficients(pow_t, t_out), t_supply, t_out)
}

/// Thermal power factor times 1e9 of a unit of nominal thermal power `pow_t`
/// (W) at outdoor temperature `t_out` and supply temperature `t_supply`.
pub fn q_from_coefficients(pow_t: i64, t_out: i16, t_supply: i16) -> (r: i64)
    ensures
        r == q_spec(pow_t as int, t_out as int, t_supply as int),
        -CORRELATION_BOUND <= r <= CORRELATION_BOUND,
{
    evaluate(q_coefficients(pow_t, t_out), t_supply, t_out)
}

/// Modulation (per mille) that a heat pump runs at when commanded `state`:
/// zero when not positive, else clamped into `[200, 1000]`.
pub open spec fn modulation_spec(state: int) -> int {
    if state <= 0 {
        0
    } else if state < HP_MIN_LOAD {
        HP_MIN_LOAD as int
    } else if state > HP_FULL_LOAD {
        HP_FULL_LOAD as int
    } else {
        state
    }
}

/// Largest magnitude of the electrical input (W) a heat pump reports:
/// inputs beyond it, which only a coefficient of performance near zero
/// gives, are held there.
pub const MAX_INPUT: i64 = 4_000_000_000_000_000_000;

/// Thermal output (W) at modulation `m` (per mille), nominal power `pow_t`
/// and power factor `q`: `m * pow_t * q`, rounded down.
pub open spec fn thermal_output(m: int, pow_t: int, q: int) -> int {
    m * pow_t * q / (PER_MILLE as int * CORRELATION_SCALE as int)
}

/// Electrical input (W) for thermal output `gen_t` at coefficient of
/// performance `cop`: `gen_t / cop` rounded down, held within
/// `[-MAX_INPUT, MAX_INPUT]`; at a zero coefficient the bound of the sign of
/// the output.
pub open spec fn electrical_input(gen_t: int, cop: int) -> int {
    if cop == 0 {
        if gen_t > 0 { MAX_INPUT as int } else if gen_t < 0 { -MAX_INPUT } else { 0 }
    } else {
        let e = if cop > 0 { gen_t * CORRELATION_SCALE as int / cop } else { (-gen_t * CORRELATION_SCALE as int) / (-cop) };
        if e > MAX_INPUT { MAX_INPUT as int } else if e < -MAX_INPUT { -MAX_INPUT } else { e }
    }
}

/// A heat pump of given nominal thermal power (W), supply temperature and
/// minimum working outdoor temperature (hundredths of a degree).
#[derive(Debug, Clone, Copy)]
pub struct Heatpump {
    pow_t: i64,
    state: i64,
    t_supply: i16,
    t_min_working: i16,
}

impl Heatpump {
    /// Nominal thermal power in W.
    pub closed spec fn power(&self) -> int {
        self.pow_t as int
    }

    /// Supply temperature in hundredths of a degree.
    pub closed spec fn supply_temperature(&self) -> int {
        self.t_supply as int
    }

    /// Minimum working outdoor temperature in hundredths of a degree.
    pub closed spec fn min_working_temperature(&self) -> int {
        self.t_min_working as int
    }

    /// Current modulation in per mille.
    pub closed spec fn modulation(&self) -> int {
        self.state as int
    }

    /// Power in range.
    pub open spec fn wf(&self) -> bool {
        0 <= self.power() <= MAX_QUANTITY
    }

    /// Creates a heat pump; `None` where the power is negative or too large.
    pub fn new(power_t: i64, t_supply: i16, t_min_working: i16) -> (r: Option<Heatpump>)
        ensures
            r is Some <==> 0 <= power_t <= MAX_QUANTITY,
            r matches Some(h) ==> h.wf() && h.power() == power_t && h.supply_temperature() == t_supply
                && h.min_working_temperature() == t_min_working && h.modulation() == 0,
    {
        if 0 <= power_t && power_t <= MAX_QUANTITY {
            Some(Heatpump { pow_t: power_t, state: 0, t_supply, t_min_working })
        } else {
            None
        }
    }

    /// Nominal thermal power in W.
    pub fn get_power(&self) -> (r: i64)
        ensures
            r == self.power(),
    {
        self.pow_t
    }

    /// Minimum working outdoor temperature in hundredths of a degree.
    pub fn get_t_min_working(&self) -> (r: i16)
        ensures
            r == self.min_working_temperature(),
    {
        self.t_min_working
    }

    /// Runs the heat pump at the commanded modulation `state` (per mille) and
    /// outdoor temperature `t_out`; returns `(electrical input, thermal output)`
    /// in W: output `m * power * Q`, input output over COP; both zero when off.
    pub fn step(&mut self, state: i64, t_out: i16) -> (r: (i64, i64))
        requires
            old(self).wf(),
        ensures
            final(self).wf(),
            final(self).power() == old(self).power(),
            final(self).supply_temperature() == old(self).supply_temperature(),
            final(self).min_working_temperature() == old(self).min_working_temperature(),
            final(self).modulation() == modulation_spec(state as int),
            ({
                let m = modulation_spec(state as int);
                let q = q_spec(old(self).power(), t_out as int, old(self).supply_temperature());
                let cop = cop_spec(old(self).power(), t_out as int, old(self).supply_temperature());
                if m > 0 {
                    &&& r.1 == thermal_output(m, old(self).power(), q)
                    &&& r.0 == electrical_input(r.1 as int, cop)
                } else {
                    r.0 == 0 && r.1 == 0
                }
            }),
            -MAX_INPUT <= r.0 <= MAX_INPUT,
            -(MAX_QUANTITY * 4_000_000) <= r.1 <= MAX_QUANTITY * 4_000_000,
    {
        let m: i64 = if state <= 0 {
            0
        } else if state < HP_MIN_LOAD {
            HP_MIN_LOAD
        } else if state > HP_FULL_LOAD {
            HP_FULL_LOAD
        } else {
            state
        };
        self.state = m;
        if m == 0 {
            return (0, 0);
        }
        let q = q_from_coefficients(self.pow_t, t_out, self.t_supply);
        let cop = cop_from_coefficients(self.pow_t, t_out, self.t_supply);
        let pow = self.pow_t;
        proof {
            lemma_output_bounds(m as int, pow as int, q as int);
            assert(0 <= m * pow <= PER_MILLE * MAX_QUANTITY) by (nonlinear_arith)
                requires 0 < m <= PER_MILLE, 0 <= pow <= MAX_QUANTITY;
        }
        let gen_t = floor_div((m as i128) * (pow as i128) * (q as i128), 1000 * 1_000_000_000i128) as i64;
        let con_e: i64 = if cop == 0 {
            if gen_t > 0 {
                MAX_INPUT
            } else if gen_t < 0 {
                -MAX_INPUT
            } else {
                0
            }
        } else {
            let num = (gen_t as i128) * 1_000_000_000i128;
            let con_wide = if cop > 0 {
                floor_div(num, cop as i128)
            } else {
                floor_div(-num, -(cop as i128))
            };
            if con_wide > MAX_INPUT as i128 {
                MAX_INPUT
            } else if con_wide < -(MAX_INPUT as i128) {
                -MAX_INPUT
            } else {
                con_wide as i64
            }
        };
        (con_e, gen_t)
    }
}

/// The product and thermal output of a running unit fit their bounds.
pub proof fn lemma_output_bounds(m: int, pow_t: int, q: int)
    requires
        0 < m <= PER_MILLE,
        0 <= pow_t <= MAX_QUANTITY,
        -CORRELATION_BOUND <= q <= CORRELATION_BOUND,
    ensures
        -(PER_MILLE * MAX_QUANTITY * CORRELATION_BOUND) <= m * pow_t * q <= PER_MILLE * MAX_QUANTITY * CORRELATION_BOUND,
        -(MAX_QUANTITY * 4_000_000) <= thermal_output(m, pow_t, q) <= MAX_QUANTITY * 4_000_000,
{
    let d = PER_MILLE as int * CORRELATION_SCALE as int;
    let b = PER_MILLE * MAX_QUANTITY * CORRELATION_BOUND;
    assert(0 <= m * pow_t <= PER_MILLE * MAX_QUANTITY) by (nonlinear_arith)
        requires 0 < m <= PER_MILLE, 0 <= pow_t <= MAX_QUANTITY;
    assert(-b <= (m * pow_t) * q <= b) by (nonlinear_arith)
        requires 0 <= m * pow_t <= PER_MILLE * MAX_QUANTITY, -CORRELATION_BOUND <= q <= CORRELATION_BOUND,
            b == PER_MILLE * MAX_QUANTITY * CORRELATION_BOUND;
    assert(m * pow_t * q == (m * pow_t) * q) by (nonlinear_arith);
    vstd::arithmetic::div_mod::lemma_div_is_ordered(m * pow_t * q, b, d);
    vstd::arithmetic::div_mod::lemma_div_is_ordered(-b, m * pow_t * q, d);
}

} // verus!

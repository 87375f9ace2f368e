//! Design of a heat pump against a reference year of hourly outdoor
//! temperatures: installed power and minimum working temperature such that
//! the mean coefficient of performance over the heating hours meets a
//! seasonal performance target.
use vstd::prelude::*;
use crate::units::MAX_QUANTITY;
use crate::heatpump::{CORRELATION_BOUND, CORRELATION_SCALE, cop_from_coefficients, cop_spec, q_from_coefficients, q_spec};

verus! {

/// Hours of a reference year.
pub const HOURS_PER_YEAR: usize = 8760;

/// Smallest installed heat-pump power (W) that a design accepts.
pub const MIN_HEATPUMP_POWER: i64 = 1000;

/// Step (hundredths of a degree) by which the minimum working temperature rises.
pub const T_MIN_STEP: i32 = 100;

/// Why a heat pump cannot be designed.
#[derive(Debug, Clone, Copy, PartialEq, Eq, Structural)]
pub enum SizingError {
    /// The norm heating load is out of range, the reference year does not
    /// have 8760 hours, the norm outdoor temperature is not below the heat
    /// limit, or the coefficient of performance at the norm temperature is below one.
    Parameter,
    /// The minimum working temperature reached the heat-limit temperature
    /// before the target was met.
    TargetUnreachable,
    /// The installed power fell below 1000 W.
    PowerTooLow,
    /// The installed power exceeded the largest quantity a component takes.
    PowerTooHigh,
}

/// Result of a successful design.
#[derive(Debug, Clone, Copy, PartialEq, Eq, Structural)]
pub struct Sizing {
    /// Installed thermal power (W) at the minimum working temperature, before
    /// the allowance for supply blackouts.
    pub pow_t: i64,
    /// Minimum working outdoor temperature, hundredths of a degree.
    pub t_min: i16,
    /// Number of candidate temperatures tried.
    pub iterations: u32,
}

/// Sum of `n` hourly temperatures from hour `start`.
pub open spec fn hours_sum(t: Seq<i16>, start: int, n: nat) -> int
    decreases n,
{
    if n == 0 {
        0
    } else {
        hours_sum(t, start, (n - 1) as nat) + t[start + n - 1] as int
    }
}

/// Hour `h` is a heating hour: the mean of its day lies below the heat limit
/// `lim` and the hour itself is not above it.
pub open spec fn is_heating_hour(t: Seq<i16>, lim: int, h: int) -> bool {
    hours_sum(t, (h / 24) * 24, 24) < 24 * lim && t[h] as int <= lim
}

/// Hour `h` counts for candidate minimum working temperature `t_c`.
pub open spec fn is_selected(t: Seq<i16>, lim: int, t_c: int, h: int) -> bool {
    is_heating_hour(t, lim, h) && t[h] as int >= t_c
}

/// Sum over the first `n` hours selected for `t_c` of the coefficient of
/// performance (times 1e9) of a unit of power `band_pow`.
pub open spec fn cop_total(t: Seq<i16>, lim: int, t_c: int, band_pow: int, t_supply: int, n: nat) -> int
    decreases n,
{
    if n == 0 {
        0
    } else {
        cop_total(t, lim, t_c, band_pow, t_supply, (n - 1) as nat) + if is_selected(t, lim, t_c, n - 1) {
            cop_spec(band_pow, t[n - 1] as int, t_supply)
        } else {
            0
        }
    }
}

/// Number of the first `n` hours selected for `t_c`.
pub open spec fn selected_count(t: Seq<i16>, lim: int, t_c: int, n: nat) -> int
    decreases n,
{
    if n == 0 {
        0
    } else {
        selected_count(t, lim, t_c, (n - 1) as nat) + if is_selected(t, lim, t_c, n - 1) { 1int } else { 0int }
    }
}

/// The mean coefficient of performance over the hours selected for `t_c`
/// reaches `target` (per mille); no hour selected never reaches it.
pub open spec fn meets_target(t: Seq<i16>, lim: int, t_c: int, band_pow: int, t_supply: int, target: int) -> bool {
    let n = t.len();
    selected_count(t, lim, t_c, n) > 0 && cop_total(t, lim, t_c, band_pow, t_supply, n) >= target
        * 1_000_000 * selected_count(t, lim, t_c, n)
}

/// Heating demand (W) at outdoor temperature `t_c` on the heating line
/// through zero at the heat limit `lim` and `q_hln` at the norm temperature `t_n`.
pub open spec fn heating_line(q_hln: int, lim: int, t_n: int, t_c: int) -> int {
    q_hln * (lim - t_c) / (lim - t_n)
}

/// Installed power (W) that covers the heating line at `t_c` with power factor `q` (times 1e9).
pub open spec fn installed_power(q_hln: int, lim: int, t_n: int, t_c: int, q: int) -> int {
    heating_line(q_hln, lim, t_n, t_c) * CORRELATION_SCALE / q
}

/// Smallest of the first `n` temperatures (the first one when `n` is zero).
pub open spec fn seq_min(t: Seq<i16>, n: nat) -> int
    decreases n,
{
    if n <= 1 {
        t[0] as int
    } else {
        let m = seq_min(t, (n - 1) as nat);
        if (t[n - 1] as int) < m { t[n - 1] as int } else { m }
    }
}

/// Power (W) whose correlation band the design uses: the norm heating load
/// over the coefficient of performance `cop_n` (times 1e9) at the norm
/// temperature, raised for six hours of supply blackout a day; held at the
/// largest quantity, which lies in the same band.
pub open spec fn band_power_spec(q_hln: int, cop_n: int) -> int {
    let b = q_hln * 4 * CORRELATION_SCALE / (3 * cop_n);
    if b > MAX_QUANTITY { MAX_QUANTITY as int } else { b }
}

/// The parameters admit a design.
pub open spec fn valid_design(q_hln: int, target: int, t: Seq<i16>, lim: int, t_n: int, t_supply: int) -> bool {
    &&& 0 <= q_hln <= MAX_QUANTITY
    &&& 0 <= target <= 1_000_000
    &&& t.len() == HOURS_PER_YEAR
    &&& t_n < lim
    &&& cop_spec(q_hln, t_n, t_supply) > 0
}

/// The design problem for the given parameters.
pub open spec fn design_input(q_hln: int, target: int, t: Seq<i16>, lim: int, t_n: int, t_supply: int) -> SizingInput {
    SizingInput {
        t,
        q_hln,
        target,
        t_supply,
        lim,
        t_n,
        band_pow: band_power_spec(q_hln, cop_spec(q_hln, t_n, t_supply)),
        t_start: seq_min(t, t.len()),
    }
}

/// Everything a design depends on.
pub ghost struct SizingInput {
    pub t: Seq<i16>,
    pub q_hln: int,
    pub target: int,
    pub t_supply: int,
    pub lim: int,
    pub t_n: int,
    pub band_pow: int,
    pub t_start: int,
}

/// Candidate minimum working temperature number `k`.
pub open spec fn candidate(p: SizingInput, k: nat) -> int {
    p.t_start + 100 * k
}

/// Outcome of the design from candidate number `k` on: the first candidate
/// that reaches the heat limit fails the design, one whose installed power is
/// out of range fails it, and the first that meets the target ends it with
/// its number and installed power. The power factor at each candidate is
/// that of a unit of the power installed at the one before (`prev`, the
/// band power for the first).
pub open spec fn outcome(p: SizingInput, k: nat, prev: int) -> Result<(nat, int), SizingError>
    decreases (if p.lim > candidate(p, k) { p.lim - candidate(p, k) } else { 0 }),
{
    let t_c = candidate(p, k);
    let q = q_spec(prev, t_c, p.t_supply);
    let pw = installed_power(p.q_hln, p.lim, p.t_n, t_c, q);
    if t_c >= p.lim {
        Err(SizingError::TargetUnreachable)
    } else if q <= 0 || pw < MIN_HEATPUMP_POWER {
        Err(SizingError::PowerTooLow)
    } else if pw > MAX_QUANTITY {
        Err(SizingError::PowerTooHigh)
    } else if meets_target(p.t, p.lim, t_c, p.band_pow, p.t_supply, p.target) {
        Ok((k, pw))
    } else {
        outcome(p, k + 1, pw)
    }
}

/// The installed power at candidate number `k`, after power `prev` at the
/// one before, lies in `[1000 W, MAX_QUANTITY]`.
pub open spec fn power_in_range(p: SizingInput, k: nat, prev: int) -> bool {
    let t_c = candidate(p, k);
    let q = q_spec(prev, t_c, p.t_supply);
    q > 0 && MIN_HEATPUMP_POWER <= installed_power(p.q_hln, p.lim, p.t_n, t_c, q) <= MAX_QUANTITY
}

/// A design that succeeds ends at a candidate below the heat limit that
/// meets the target, after at most one candidate per degree between the
/// starting temperature and the heat limit.
pub proof fn lemma_outcome_ok(p: SizingInput, k: nat, prev: int)
    ensures
        outcome(p, k, prev) matches Ok((j, pw)) ==> k <= j && candidate(p, j) < p.lim && MIN_HEATPUMP_POWER <= pw
            <= MAX_QUANTITY && meets_target(p.t, p.lim, candidate(p, j), p.band_pow, p.t_supply, p.target)
            && 100 * j < p.lim - p.t_start,
    decreases (if p.lim > candidate(p, k) { p.lim - candidate(p, k) } else { 0 }),
{
    let t_c = candidate(p, k);
    let q = q_spec(prev, t_c, p.t_supply);
    let pw = installed_power(p.q_hln, p.lim, p.t_n, t_c, q);
    if t_c < p.lim && !(q <= 0 || pw < MIN_HEATPUMP_POWER) && !(pw > MAX_QUANTITY) && !meets_target(
        p.t,
        p.lim,
        t_c,
        p.band_pow,
        p.t_supply,
        p.target,
    ) {
        lemma_outcome_ok(p, k + 1, pw);
    }
}

/// A reachable target is met: where candidate `k0` lies below the heat limit
/// and meets the target, and up to it the installed power stays in range
/// after any power in range before, the design from candidate `k` on, after
/// a power `prev` in range, succeeds no later than `k0`.
pub proof fn lemma_reachable_target(p: SizingInput, k: nat, k0: nat, prev: int)
    requires
        k <= k0,
        0 <= prev <= MAX_QUANTITY,
        candidate(p, k0) < p.lim,
        meets_target(p.t, p.lim, candidate(p, k0), p.band_pow, p.t_supply, p.target),
        forall|j: nat, pr: int| k <= j <= k0 && 0 <= pr <= MAX_QUANTITY ==> #[trigger] power_in_range(p, j, pr),
    ensures
        outcome(p, k, prev) matches Ok((j, _)) && j <= k0,
    decreases k0 - k,
{
    assert(power_in_range(p, k, prev));
    let t_c = candidate(p, k);
    let pw = installed_power(p.q_hln, p.lim, p.t_n, t_c, q_spec(prev, t_c, p.t_supply));
    if k < k0 && !meets_target(p.t, p.lim, t_c, p.band_pow, p.t_supply, p.target) {
        lemma_reachable_target(p, k + 1, k0, pw);
    }
}

/// An unreachable target fails the design: where no candidate below the heat
/// limit meets the target, the design ends in an error.
pub proof fn lemma_unreachable_target(p: SizingInput, k: nat, prev: int)
    requires
        forall|j: nat| k <= j && candidate(p, j) < p.lim ==> !meets_target(p.t, p.lim, candidate(p, j), p.band_pow, p.t_supply, p.target),
    ensures
        outcome(p, k, prev) is Err,
    decreases (if p.lim > candidate(p, k) { p.lim - candidate(p, k) } else { 0 }),
{
    let t_c = candidate(p, k);
    if t_c < p.lim {
        lemma_unreachable_target(p, k + 1, installed_power(p.q_hln, p.lim, p.t_n, t_c, q_spec(prev, t_c, p.t_supply)));
    }
}

/// Smallest temperature of a non-empty series.
pub fn find_minimum(values: &Vec<i16>) -> (r: i16)
    requires
        values.len() > 0,
    ensures
        r == seq_min(values@, values@.len()),
{
    let mut m = values[0];
    let mut i: usize = 1;
    while i < values.len()
        invariant
            1 <= i <= values.len(),
            m == seq_min(values@, i as nat),
        decreases values.len() - i,
    {
        if values[i] < m {
            m = values[i];
        }
        i = i + 1;
    }
    m
}

/// Sums of the 24 hours of each day are bounded by 24 times the largest magnitude.
proof fn lemma_hours_sum_bounds(t: Seq<i16>, start: int, n: nat)
    requires
        0 <= start,
        start + n <= t.len(),
    ensures
        -32768 * n <= hours_sum(t, start, n) <= 32767 * n,
    decreases n,
{
    if n > 0 {
        lemma_hours_sum_bounds(t, start, (n - 1) as nat);
    }
}

/// Flags of the heating hours of a reference year.
fn heating_hours(t: &Vec<i16>, lim: i16) -> (r: Vec<bool>)
    requires
        t.len() == HOURS_PER_YEAR,
    ensures
        r.len() == HOURS_PER_YEAR,
        forall|h: int| 0 <= h < HOURS_PER_YEAR ==> r[h] == is_heating_hour(t@, lim as int, h),
{
    let mut r: Vec<bool> = Vec::new();
    let mut d: usize = 0;
    while d < 365
        invariant
            d <= 365,
            t.len() == HOURS_PER_YEAR,
            r.len() == 24 * d,
            forall|h: int| 0 <= h < 24 * d ==> r[h] == is_heating_hour(t@, lim as int, h),
        decreases 365 - d,
    {
        let mut sum: i64 = 0;
        let mut i: usize = 0;
        while i < 24
            invariant
                i <= 24,
                d < 365,
                t.len() == HOURS_PER_YEAR,
                sum == hours_sum(t@, 24 * d as int, i as nat),
            decreases 24 - i,
        {
            proof {
                lemma_hours_sum_bounds(t@, 24 * d as int, i as nat);
            }
            sum = sum + t[24 * d + i] as i64;
            i = i + 1;
        }
        let heating_day = sum < 24 * (lim as i64);
        let mut j: usize = 0;
        while j < 24
            invariant
                j <= 24,
                d < 365,
                t.len() == HOURS_PER_YEAR,
                r.len() == 24 * d + j,
                heating_day == (hours_sum(t@, 24 * d as int, 24) < 24 * lim as int),
                forall|h: int| 0 <= h < 24 * d + j ==> r[h] == is_heating_hour(t@, lim as int, h),
            decreases 24 - j,
        {
            let h = 24 * d + j;
            assert((h as int / 24) * 24 == 24 * d as int);
            r.push(heating_day && t[h] <= lim);
            j = j + 1;
        }
        d = d + 1;
    }
    r
}

/// Coefficient of performance (times 1e9) of a unit of power `band_pow` at every hour.
fn hourly_cops(t: &Vec<i16>, band_pow: i64, t_supply: i16) -> (r: Vec<i64>)
    ensures
        r.len() == t.len(),
        forall|h: int| 0 <= h < t.len() ==> r[h] == cop_spec(band_pow as int, t[h] as int, t_supply as int),
        forall|h: int| 0 <= h < t.len() ==> -CORRELATION_BOUND <= #[trigger] r[h] <= CORRELATION_BOUND,
{
    let mut r: Vec<i64> = Vec::new();
    let mut h: usize = 0;
    while h < t.len()
        invariant
            h <= t.len(),
            r.len() == h,
            forall|k: int| 0 <= k < h ==> r[k] == cop_spec(band_pow as int, t[k] as int, t_supply as int),
            forall|k: int| 0 <= k < h ==> -CORRELATION_BOUND <= #[trigger] r[k] <= CORRELATION_BOUND,
        decreases t.len() - h,
    {
        r.push(cop_from_coefficients(band_pow, t[h], t_supply));
        h = h + 1;
    }
    r
}

/// Sum of the coefficients of performance and number of the hours selected
/// for candidate `t_c`.
fn selected_cops(
    t: &Vec<i16>,
    heating: &Vec<bool>,
    cops: &Vec<i64>,
    lim: i16,
    t_c: i32,
    Ghost(band_pow): Ghost<int>,
    Ghost(t_supply): Ghost<int>,
) -> (r: (i128, i64))
    requires
        t.len() == HOURS_PER_YEAR,
        heating.len() == HOURS_PER_YEAR,
        cops.len() == HOURS_PER_YEAR,
        forall|h: int| 0 <= h < HOURS_PER_YEAR ==> heating[h] == is_heating_hour(t@, lim as int, h),
        forall|h: int| 0 <= h < HOURS_PER_YEAR ==> cops[h] == cop_spec(band_pow, t[h] as int, t_supply),
        forall|h: int| 0 <= h < HOURS_PER_YEAR ==> -CORRELATION_BOUND <= #[trigger] cops[h] <= CORRELATION_BOUND,
    ensures
        r.0 == cop_total(t@, lim as int, t_c as int, band_pow, t_supply, HOURS_PER_YEAR as nat),
        r.1 == selected_count(t@, lim as int, t_c as int, HOURS_PER_YEAR as nat),
        0 <= r.1 <= HOURS_PER_YEAR,
        -4_000_000_000_000_000 * 8760 <= r.0 <= 4_000_000_000_000_000 * 8760,
{
    let mut sum: i128 = 0;
    let mut count: i64 = 0;
    let mut h: usize = 0;
    while h < HOURS_PER_YEAR
        invariant
            h <= HOURS_PER_YEAR,
            t.len() == HOURS_PER_YEAR,
            heating.len() == HOURS_PER_YEAR,
            cops.len() == HOURS_PER_YEAR,
            forall|k: int| 0 <= k < HOURS_PER_YEAR ==> heating[k] == is_heating_hour(t@, lim as int, k),
            forall|k: int| 0 <= k < HOURS_PER_YEAR ==> cops[k] == cop_spec(band_pow, t[k] as int, t_supply),
            forall|k: int| 0 <= k < HOURS_PER_YEAR ==> -CORRELATION_BOUND <= #[trigger] cops[k] <= CORRELATION_BOUND,
            sum == cop_total(t@, lim as int, t_c as int, band_pow, t_supply, h as nat),
            count == selected_count(t@, lim as int, t_c as int, h as nat),
            0 <= count <= h,
            -4_000_000_000_000_000 * (h as int) <= sum <= 4_000_000_000_000_000 * (h as int),
        decreases HOURS_PER_YEAR - h,
    {
        let c = cops[h];
        assert(-4_000_000_000_000_000 <= c <= 4_000_000_000_000_000);
        if heating[h] && t[h] as i32 >= t_c {
            sum = sum + c as i128;
            count = count + 1;
        }
        h = h + 1;
    }
    (sum, count)
}

/// Designs a heat pump for norm heating load `q_hln` (W), seasonal
/// performance target `target` (per mille), supply temperature `t_supply`,
/// reference year `t_ref` (8760 hourly temperatures), heat-limit temperature
/// `lim` and norm outdoor temperature `t_n` (hundredths of a degree).
///
/// Starting at the coldest hour, the minimum working temperature rises by one
/// degree per iteration until the mean coefficient of performance over the
/// heating hours not colder than it meets the target; see [`outcome`].
pub fn size_heatpump(q_hln: i64, target: i64, t_supply: i16, t_ref: &Vec<i16>, lim: i16, t_n: i16) -> (r: Result<Sizing, SizingError>)
    ensures
        !valid_design(q_hln as int, target as int, t_ref@, lim as int, t_n as int, t_supply as int) ==> r
            == Err::<Sizing, SizingError>(SizingError::Parameter),
        valid_design(q_hln as int, target as int, t_ref@, lim as int, t_n as int, t_supply as int) ==> ({
            let p = design_input(q_hln as int, target as int, t_ref@, lim as int, t_n as int, t_supply as int);
            match outcome(p, 0, p.band_pow) {
                Ok((k, pw)) => r matches Ok(s) && s.iterations == k + 1 && s.t_min == candidate(p, k) && s.pow_t == pw,
                Err(e) => r == Err::<Sizing, SizingError>(e),
            }
        }),
{
    if !(0 <= q_hln && q_hln <= MAX_QUANTITY && 0 <= target && target <= 1_000_000 && t_ref.len() == HOURS_PER_YEAR && t_n < lim) {
        return Err(SizingError::Parameter);
    }
    let cop_n = cop_from_coefficients(q_hln, t_n, t_supply);
    if cop_n <= 0 {
        return Err(SizingError::Parameter);
    }
    let ghost p = design_input(q_hln as int, target as int, t_ref@, lim as int, t_n as int, t_supply as int);
    assert(0 <= (q_hln as i128) * 4 * 1_000_000_000 <= 4_000_000_000_000_000_000_000) by (nonlinear_arith)
        requires 0 <= q_hln <= MAX_QUANTITY;
    let band_wide = (q_hln as i128) * 4 * 1_000_000_000 / (3 * cop_n as i128);
    let band_pow: i64 = if band_wide > MAX_QUANTITY as i128 {
        MAX_QUANTITY
    } else {
        band_wide as i64
    };
    let heating = heating_hours(t_ref, lim);
    let cops = hourly_cops(t_ref, band_pow, t_supply);
    let t_start = find_minimum(t_ref);
    let mut t_c: i32 = t_start as i32;
    let mut k: u32 = 0;
    let mut prev: i64 = band_pow;
    loop
        invariant
            p == design_input(q_hln as int, target as int, t_ref@, lim as int, t_n as int, t_supply as int),
            valid_design(q_hln as int, target as int, t_ref@, lim as int, t_n as int, t_supply as int),
            p.band_pow == band_pow,
            p.t_start == t_start,
            t_c == candidate(p, k as nat),
            k <= 70_000,
            t_c <= 32867,
            t_c >= -32768,
            outcome(p, 0, p.band_pow) == outcome(p, k as nat, prev as int),
            heating.len() == HOURS_PER_YEAR,
            cops.len() == HOURS_PER_YEAR,
            forall|h: int| 0 <= h < HOURS_PER_YEAR ==> heating[h] == is_heating_hour(t_ref@, lim as int, h),
            forall|h: int| 0 <= h < HOURS_PER_YEAR ==> cops[h] == cop_spec(band_pow as int, t_ref[h] as int, t_supply as int),
            forall|h: int| 0 <= h < HOURS_PER_YEAR ==> -CORRELATION_BOUND <= #[trigger] cops[h] <= CORRELATION_BOUND,
        decreases 33000 - t_c,
    {
        if t_c >= lim as i32 {
            return Err(SizingError::TargetUnreachable);
        }
        let t_cand = t_c as i16;
        let q = q_from_coefficients(prev, t_cand, t_supply);
        let span = (lim as i64) - (t_n as i64);
        assert(0 <= q_hln * ((lim as i64) - (t_c as i64)) <= MAX_QUANTITY * 70_000) by (nonlinear_arith)
            requires 0 <= q_hln <= MAX_QUANTITY, 0 < lim - t_c <= 70_000;
        let heat = q_hln * ((lim as i64) - (t_c as i64)) / span;
        assert(0 <= heat <= MAX_QUANTITY * 70_000) by {
            vstd::arithmetic::div_mod::lemma_div_is_ordered_by_denominator(q_hln * ((lim as i64) - (t_c as i64)), 1, span as int);
            vstd::arithmetic::div_mod::lemma_div_pos_is_pos(q_hln * ((lim as i64) - (t_c as i64)), span as int);
        }
        if q <= 0 {
            return Err(SizingError::PowerTooLow);
        }
        assert(0 <= heat * 1_000_000_000 <= MAX_QUANTITY * 70_000 * 1_000_000_000) by (nonlinear_arith)
            requires 0 <= heat <= MAX_QUANTITY * 70_000;
        let pow_wide = (heat as i128) * 1_000_000_000 / (q as i128);
        if pow_wide < MIN_HEATPUMP_POWER as i128 {
            return Err(SizingError::PowerTooLow);
        }
        if pow_wide > MAX_QUANTITY as i128 {
            return Err(SizingError::PowerTooHigh);
        }
        let (sum, count) = selected_cops(t_ref, &heating, &cops, lim, t_c, Ghost(band_pow as int), Ghost(t_supply as int));
        assert(0 <= target * 1_000_000 * count <= 1_000_000_000_000 * 8760) by (nonlinear_arith)
            requires 0 <= target <= 1_000_000, 0 <= count <= 8760;
        if count > 0 && sum >= (target as i128) * 1_000_000 * (count as i128) {
            return Ok(Sizing { pow_t: pow_wide as i64, t_min: t_cand, iterations: k + 1 });
        }
        t_c = t_c + T_MIN_STEP;
        k = k + 1;
        prev = pow_wide as i64;
    }
}

} // verus!

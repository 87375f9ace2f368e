//! Sizing of thermal storage tanks from a table of standard volumes.
use vstd::prelude::*;
use crate::random::draw_between;
use crate::storage::MAX_SELF_DISCHARGE;

verus! {

/// Number of standard tank volumes.
pub const N_MODELS: usize = 11;

/// Heat capacity of water per litre and kelvin, in units of 1e-7 Wh:
/// 1.162 Wh/(kg K) times 0.9832 kg/l.
pub const WATER_HEAT_CAPACITY: i64 = 11_424_784;

/// Heat loss through the tank surface at full charge, W per square metre.
pub const SURFACE_LOSS: i64 = 15;

/// Largest temperature spread (hundredths of a kelvin) a tank is sized for.
pub const MAX_SPREAD: i64 = 10_000;

/// Energy (Wh) of filling a standard bathtub, the unit of hot-water demand.
pub const BATHTUB_ENERGY: i64 = 5820;

/// Lowest and highest water volume per kW of heating power (litres), drawn at random.
pub const WATER_PER_KW_LOW: i64 = 50;
pub const WATER_PER_KW_HIGH: i64 = 100;

/// Standard tank volume number `i`, in litres.
pub open spec fn volume_spec(i: int) -> int {
    if i == 0 { 200 } else if i == 1 { 300 } else if i == 2 { 400 } else if i == 3 { 500 }
    else if i == 4 { 600 } else if i == 5 { 750 } else if i == 6 { 950 } else if i == 7 { 1500 }
    else if i == 8 { 2000 } else if i == 9 { 3000 } else { 5000 }
}

/// Outer surface (square centimetres) of the tank of volume `v` litres, for
/// a height of 4.5 radii: `11 pi r^2` with `r = (v / (4.5 pi))^(1/3)`.
pub open spec fn surface_spec(v: int) -> int {
    if v == 200 { 20214 } else if v == 300 { 26488 } else if v == 400 { 32088 }
    else if v == 500 { 37235 } else if v == 600 { 42047 } else if v == 750 { 48791 }
    else if v == 950 { 57119 } else if v == 1500 { 77451 } else if v == 2000 { 93826 }
    else if v == 3000 { 122946 } else { 172828 }
}

/// `v` is one of the standard volumes.
pub open spec fn is_standard_volume(v: int) -> bool {
    exists|i: int| 0 <= i < N_MODELS && volume_spec(i) == v
}

/// Capacity in watt-steps of `v` litres of water over a spread of `delta_t`
/// hundredths of a kelvin.
pub open spec fn tank_capacity_spec(v: int, delta_t: int) -> int {
    v * WATER_HEAT_CAPACITY * delta_t * 4 / 1_000_000_000
}

/// Standard tank volume number `i` in litres.
pub fn tank_volume(i: usize) -> (r: i64)
    requires
        i < N_MODELS,
    ensures
        r == volume_spec(i as int),
        200 <= r <= 5000,
{
    match i {
        0 => 200,
        1 => 300,
        2 => 400,
        3 => 500,
        4 => 600,
        5 => 750,
        6 => 950,
        7 => 1500,
        8 => 2000,
        9 => 3000,
        _ => 5000,
    }
}

/// Capacity (watt-steps) of `volume` litres over a spread of `delta_t`
/// hundredths of a kelvin.
pub fn tank_capacity(volume: i64, delta_t: i64) -> (r: i64)
    requires
        0 <= volume <= 5000,
        0 <= delta_t <= MAX_SPREAD,
    ensures
        r == tank_capacity_spec(volume as int, delta_t as int),
        0 <= r <= 3_000_000,
        volume >= 200 && delta_t >= 1 ==> r >= 9,
{
    assert(0 <= volume * WATER_HEAT_CAPACITY * delta_t * 4 <= 5000 * WATER_HEAT_CAPACITY * MAX_SPREAD * 4)
        by (nonlinear_arith)
        requires 0 <= volume <= 5000, 0 <= delta_t <= MAX_SPREAD;
    assert(volume >= 200 && delta_t >= 1 ==> volume * WATER_HEAT_CAPACITY * delta_t * 4 >= 200
        * WATER_HEAT_CAPACITY * 4) by (nonlinear_arith)
        requires 0 <= volume, 0 <= delta_t;
    volume * WATER_HEAT_CAPACITY * delta_t * 4 / 1_000_000_000
}

/// Index of the first smallest value.
pub fn min_index(values: &Vec<i64>) -> (r: usize)
    requires
        values.len() > 0,
    ensures
        r < values.len(),
        forall|j: int| 0 <= j < values.len() ==> values[r as int] <= values[j],
        forall|j: int| 0 <= j < r ==> values[j] > values[r as int],
{
    let mut idx: usize = 0;
    let mut j: usize = 1;
    while j < values.len()
        invariant
            0 < j <= values.len(),
            idx < j,
            forall|k: int| 0 <= k < j ==> values[idx as int] <= values[k],
            forall|k: int| 0 <= k < idx ==> values[k] > values[idx as int],
        decreases values.len() - j,
    {
        if values[j] < values[idx] {
            idx = j;
        }
        j = j + 1;
    }
    idx
}

/// Distance (millilitres) between the volume `exact_ml` and standard volume `i`.
pub open spec fn model_distance(exact_ml: int, i: int) -> int {
    let d = exact_ml - volume_spec(i) * 1000;
    if d < 0 { -d } else { d }
}

/// Standard volume `i` is the first of those nearest to `exact_ml`.
pub open spec fn is_nearest_model(exact_ml: int, i: int) -> bool {
    &&& 0 <= i < N_MODELS
    &&& forall|j: int| 0 <= j < N_MODELS ==> model_distance(exact_ml, i) <= model_distance(exact_ml, j)
    &&& forall|j: int| 0 <= j < i ==> model_distance(exact_ml, j) > model_distance(exact_ml, i)
}

/// Heating storage for a source of thermal power `pow_t` (W) with
/// `water_per_kw` litres per kW: the standard tank nearest to that volume.
/// Returns `(capacity in watt-steps, volume in litres)` for a spread of
/// `delta_t` hundredths of a kelvin.
pub fn heating_system_storage_for(pow_t: i64, delta_t: i64, water_per_kw: i64) -> (r: (i64, i64))
    requires
        0 <= pow_t <= 1_000_000_000_000,
        0 <= water_per_kw <= 1000,
        0 <= delta_t <= MAX_SPREAD,
    ensures
        exists|i: int| is_nearest_model(pow_t * water_per_kw, i) && r.1 == volume_spec(i),
        r.0 == tank_capacity_spec(r.1 as int, delta_t as int),
        200 <= r.1 <= 5000,
        r.0 <= 3_000_000,
        delta_t >= 1 ==> r.0 >= 9,
{
    assert(0 <= pow_t * water_per_kw <= 1_000_000_000_000 * 1000) by (nonlinear_arith)
        requires 0 <= pow_t <= 1_000_000_000_000, 0 <= water_per_kw <= 1000;
    let exact = pow_t * water_per_kw;
    let mut diffs: Vec<i64> = Vec::new();
    let mut i: usize = 0;
    while i < N_MODELS
        invariant
            i <= N_MODELS,
            diffs.len() == i,
            0 <= exact <= 1_000_000_000_000_000,
            forall|k: int| 0 <= k < i ==> diffs[k] == model_distance(exact as int, k),
        decreases N_MODELS - i,
    {
        let v = tank_volume(i) * 1000;
        let d = if exact < v {
            v - exact
        } else {
            exact - v
        };
        diffs.push(d);
        i = i + 1;
    }
    let index = min_index(&diffs);
    let volume = tank_volume(index);
    assert(is_nearest_model(exact as int, index as int));
    (tank_capacity(volume, delta_t), volume)
}

/// Heating storage for a source of thermal power `pow_t` (W), with a water
/// volume per kW drawn at random in `[50, 100]` litres; see
/// [`heating_system_storage_for`].
pub fn find_heating_system_storage(pow_t: i64, delta_t: i64) -> (r: (i64, i64))
    requires
        0 <= pow_t <= 1_000_000_000_000,
        0 <= delta_t <= MAX_SPREAD,
    ensures
        exists|w: int, i: int|
            WATER_PER_KW_LOW <= w <= WATER_PER_KW_HIGH && #[trigger] is_nearest_model(pow_t * w, i) && r.1
                == volume_spec(i),
        r.0 == tank_capacity_spec(r.1 as int, delta_t as int),
        200 <= r.1 <= 5000,
        r.0 <= 3_000_000,
        delta_t >= 1 ==> r.0 >= 9,
{
    let w = draw_between(WATER_PER_KW_LOW as u64, WATER_PER_KW_HIGH as u64) as i64;
    heating_system_storage_for(pow_t, delta_t, w)
}

/// Self-discharge rate (parts per million per hour) of a tank of `volume`
/// litres and capacity `cap` watt-steps: 15 W per square metre of surface at
/// full charge, at most the largest rate a storage accepts.
pub open spec fn loss_parameter_spec(volume: int, cap: int) -> int {
    let rate = surface_spec(volume) * SURFACE_LOSS * 400 / cap;
    if rate > MAX_SELF_DISCHARGE { MAX_SELF_DISCHARGE as int } else { rate }
}

/// Computes the self-discharge rate of a tank; see [`loss_parameter_spec`].
pub fn find_heat_storage_loss_parameter(volume: i64, cap: i64) -> (r: i64)
    requires
        cap > 0,
    ensures
        r == loss_parameter_spec(volume as int, cap as int),
        0 <= r <= MAX_SELF_DISCHARGE,
{
    let surface: i64 = match volume {
        200 => 20214,
        300 => 26488,
        400 => 32088,
        500 => 37235,
        600 => 42047,
        750 => 48791,
        950 => 57119,
        1500 => 77451,
        2000 => 93826,
        3000 => 122946,
        _ => 172828,
    };
    let rate = surface * SURFACE_LOSS * 400 / cap;
    if rate > MAX_SELF_DISCHARGE {
        MAX_SELF_DISCHARGE
    } else {
        rate
    }
}

/// Integer square root, rounded down.
pub fn isqrt(n: u64) -> (r: u64)
    ensures
        r * r <= n < (r + 1) * (r + 1),
{
    let mut lo: u64 = 0;
    let mut hi: u64 = 4_294_967_296;
    assert(n < hi * hi) by (nonlinear_arith)
        requires n <= 0xffff_ffff_ffff_ffff, hi == 4_294_967_296;
    while hi - lo > 1
        invariant
            lo < hi <= 4_294_967_296,
            lo * lo <= n < hi * hi,
        decreases hi - lo,
    {
        let mid = lo + (hi - lo) / 2;
        assert(mid * mid <= 4_294_967_296 * 4_294_967_296) by (nonlinear_arith)
            requires mid <= 4_294_967_296;
        if (mid as u128) * (mid as u128) <= n as u128 {
            lo = mid;
        } else {
            hi = mid;
        }
    }
    lo
}

/// Energy (Wh times 1000) that a building with hot-water characteristic
/// number `n` (per mille) needs for its peak: 5820 Wh times `n + sqrt(n)`.
pub open spec fn peak_hot_water_spec(n: int, root: int) -> int {
    BATHTUB_ENERGY * (n + root)
}

/// Standard volume `i` is the first whose content over `delta_t` exceeds `w`
/// (Wh times 1000), or the largest when none does.
pub open spec fn is_first_fitting(w: int, delta_t: int, i: int) -> bool {
    &&& 0 <= i < N_MODELS
    &&& forall|j: int| 0 <= j < i ==> !tank_fits(w, delta_t, j)
    &&& (tank_fits(w, delta_t, i) || i == N_MODELS - 1)
}

/// The content of standard volume `j` over `delta_t` exceeds `w` (Wh times 1000).
pub open spec fn tank_fits(w: int, delta_t: int, j: int) -> bool {
    w * 1_000_000 < volume_spec(j) * WATER_HEAT_CAPACITY * delta_t
}

/// Hot-water storage for characteristic number `n` (per mille) over a spread
/// of `delta_t` hundredths of a kelvin: the first standard tank whose content
/// exceeds the peak demand. Returns its capacity in watt-steps.
pub fn find_hot_water_system_storage(n: i64, delta_t: i64) -> (r: i64)
    requires
        0 <= n <= 1_000_000,
        0 <= delta_t <= MAX_SPREAD,
    ensures
        exists|root: int, i: int|
            root * root <= n * 1000 < (root + 1) * (root + 1) && is_first_fitting(
                peak_hot_water_spec(n as int, root),
                delta_t as int,
                i,
            ) && r == tank_capacity_spec(volume_spec(i), delta_t as int),
        r <= 3_000_000,
        delta_t >= 1 ==> r >= 9,
{
    let m: u64 = (n * 1000) as u64;
    let rr = isqrt(m);
    assert(rr <= 1_000_000) by (nonlinear_arith)
        requires rr * rr <= m, m <= 1_000_000_000;
    let root = rr as i64;
    let w = BATHTUB_ENERGY * (n + root);
    let mut i: usize = 0;
    while i < N_MODELS - 1
        invariant
            i < N_MODELS,
            w == peak_hot_water_spec(n as int, root as int),
            0 <= w <= BATHTUB_ENERGY * 2_000_000,
            0 <= delta_t <= MAX_SPREAD,
            rr * rr <= m < (rr + 1) * (rr + 1),
            m == n * 1000,
            root == rr,
            forall|j: int| 0 <= j < i ==> !tank_fits(w as int, delta_t as int, j),
        decreases N_MODELS - i,
    {
        let v = tank_volume(i);
        assert(0 <= v * WATER_HEAT_CAPACITY * delta_t <= 5000 * WATER_HEAT_CAPACITY * MAX_SPREAD)
            by (nonlinear_arith)
            requires 0 <= v <= 5000, 0 <= delta_t <= MAX_SPREAD;
        if w * 1_000_000 < v * WATER_HEAT_CAPACITY * delta_t {
            assert(is_first_fitting(w as int, delta_t as int, i as int));
            let r = tank_capacity(v, delta_t);
            assert(rr * rr <= m < (rr + 1) * (rr + 1) && is_first_fitting(
                peak_hot_water_spec(n as int, root as int),
                delta_t as int,
                i as int,
            ) && r == tank_capacity_spec(volume_spec(i as int), delta_t as int));
            return r;
        }
        i = i + 1;
    }
    assert(is_first_fitting(w as int, delta_t as int, i as int));
    let r = tank_capacity(tank_volume(i), delta_t);
    assert(rr * rr <= m < (rr + 1) * (rr + 1) && is_first_fitting(
        peak_hot_water_spec(n as int, root as int),
        delta_t as int,
        i as int,
    ) && r == tank_capacity_spec(volume_spec(i as int), delta_t as int));
    r
}

} // verus!

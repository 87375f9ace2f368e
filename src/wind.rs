//! A wind turbine: rotor area, air density and the cube of the hub wind
//! speed, between cut-in and cut-out speeds.
use vstd::prelude::*;

verus! {

/// Largest effective rotor area, thousandths of a square metre.
pub const MAX_ROTOR_AREA: i64 = 1_000_000_000;

/// Largest wind speed, centimetres per second.
pub const MAX_WIND_SPEED: i64 = 10_000;

/// Largest ratio of hub to measured wind speed, per mille.
pub const MAX_HUB_FACTOR: i64 = 10_000;

/// A wind turbine. Speeds in centimetres per second, area in thousandths of
/// a square metre, hub factor and efficiency in per mille.
#[derive(Debug, Clone, Copy)]
pub struct Wind {
    hub_factor: i64,
    area: i64,
    efficiency: i64,
    min_ws: i64,
    opt_ws: i64,
    max_ws: i64,
}

/// Electrical power (W) at hub wind speed `ws` (cm/s): zero outside
/// `[min_ws, max_ws]`, else `area * 1.2 kg/m3 * v^3 * efficiency` with the
/// speed held at the optimum `opt_ws`.
pub open spec fn wind_power(area: int, efficiency: int, min_ws: int, opt_ws: int, max_ws: int, ws: int) -> int {
    if ws < min_ws || ws > max_ws {
        0
    } else {
        let v = if ws > opt_ws { opt_ws } else { ws };
        area * 12 * v * v * v * efficiency / 10_000_000_000_000
    }
}

impl Wind {
    /// Hub speed per measured speed, per mille.
    pub closed spec fn hub_factor_spec(&self) -> int { self.hub_factor as int }
    /// Effective rotor area, thousandths of a square metre.
    pub closed spec fn area_spec(&self) -> int { self.area as int }
    /// Efficiency, per mille.
    pub closed spec fn efficiency_spec(&self) -> int { self.efficiency as int }
    /// Cut-in speed, cm/s.
    pub closed spec fn min_ws_spec(&self) -> int { self.min_ws as int }
    /// Speed of the optimal working point, cm/s.
    pub closed spec fn opt_ws_spec(&self) -> int { self.opt_ws as int }
    /// Cut-out speed, cm/s.
    pub closed spec fn max_ws_spec(&self) -> int { self.max_ws as int }

    /// Parameters in range.
    pub open spec fn wf(&self) -> bool {
        &&& 0 <= self.hub_factor_spec() <= MAX_HUB_FACTOR
        &&& 0 <= self.area_spec() <= MAX_ROTOR_AREA
        &&& 0 <= self.efficiency_spec() <= 1000
        &&& 0 <= self.min_ws_spec() <= MAX_WIND_SPEED
        &&& 0 <= self.opt_ws_spec() <= MAX_WIND_SPEED
        &&& 0 <= self.max_ws_spec() <= MAX_WIND_SPEED
    }

    /// A turbine; `None` where a parameter is out of range.
    pub fn new(hub_factor: i64, area: i64, min_ws: i64, opt_ws: i64, max_ws: i64, efficiency: i64) -> (r: Option<Wind>)
        ensures
            r is Some <==> (0 <= hub_factor <= MAX_HUB_FACTOR && 0 <= area <= MAX_ROTOR_AREA && 0 <= efficiency <= 1000
                && 0 <= min_ws <= MAX_WIND_SPEED && 0 <= opt_ws <= MAX_WIND_SPEED && 0 <= max_ws <= MAX_WIND_SPEED),
            r matches Some(w) ==> w.wf() && w.hub_factor_spec() == hub_factor && w.area_spec() == area
                && w.efficiency_spec() == efficiency && w.min_ws_spec() == min_ws && w.opt_ws_spec() == opt_ws
                && w.max_ws_spec() == max_ws,
    {
        if 0 <= hub_factor && hub_factor <= MAX_HUB_FACTOR && 0 <= area && area <= MAX_ROTOR_AREA && 0 <= efficiency
            && efficiency <= 1000 && 0 <= min_ws && min_ws <= MAX_WIND_SPEED && 0 <= opt_ws && opt_ws <= MAX_WIND_SPEED
            && 0 <= max_ws && max_ws <= MAX_WIND_SPEED {
            Some(Wind { hub_factor, area, efficiency, min_ws, opt_ws, max_ws })
        } else {
            None
        }
    }

    /// Electrical power (W) at measured wind speed `ws` (cm/s at 10 m):
    /// the hub speed is `ws` times the hub factor; see [`wind_power`].
    pub fn step(&self, ws: i64) -> (r: i64)
        requires
            self.wf(),
            0 <= ws <= MAX_WIND_SPEED,
        ensures
            r == wind_power(self.area_spec(), self.efficiency_spec(), self.min_ws_spec(), self.opt_ws_spec(),
                self.max_ws_spec(), ws * self.hub_factor_spec() / 1000),
            r >= 0,
    {
        assert(0 <= ws * self.hub_factor <= MAX_WIND_SPEED * MAX_HUB_FACTOR) by (nonlinear_arith)
            requires 0 <= ws <= MAX_WIND_SPEED, 0 <= self.hub_factor <= MAX_HUB_FACTOR;
        let hub = ws * self.hub_factor / 1000;
        if hub < self.min_ws || hub > self.max_ws {
            return 0;
        }
        let v = if hub > self.opt_ws {
            self.opt_ws
        } else {
            hub
        };
        let a = self.area as i128;
        let vv = v as i128;
        let e = self.efficiency as i128;
        assert(0 <= vv * vv <= 100_000_000) by (nonlinear_arith)
            requires 0 <= vv <= MAX_WIND_SPEED;
        assert(0 <= vv * vv * vv <= 1_000_000_000_000) by (nonlinear_arith)
            requires 0 <= vv * vv <= 100_000_000, 0 <= vv <= MAX_WIND_SPEED;
        assert(0 <= a * 12 <= 12_000_000_000) by (nonlinear_arith)
            requires 0 <= a <= MAX_ROTOR_AREA;
        assert(0 <= a * 12 * vv <= 120_000_000_000_000) by (nonlinear_arith)
            requires 0 <= a * 12 <= 12_000_000_000, 0 <= vv <= MAX_WIND_SPEED;
        assert(0 <= a * 12 * vv * vv <= 1_200_000_000_000_000_000) by (nonlinear_arith)
            requires 0 <= a * 12 * vv <= 120_000_000_000_000, 0 <= vv <= MAX_WIND_SPEED;
        assert(0 <= a * 12 * vv * vv * vv <= 12_000_000_000_000_000_000_000) by (nonlinear_arith)
            requires 0 <= a * 12 * vv * vv <= 1_200_000_000_000_000_000, 0 <= vv <= MAX_WIND_SPEED;
        assert(0 <= a * 12 * vv * vv * vv * e <= 12_000_000_000_000_000_000_000_000) by (nonlinear_arith)
            requires 0 <= a * 12 * vv * vv * vv <= 12_000_000_000_000_000_000_000, 0 <= e <= 1000;
        let p = a * 12 * vv * vv * vv * e / 10_000_000_000_000;
        assert(p <= 1_200_000_000_000);
        p as i64
    }
}

} // verus!

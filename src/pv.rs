//! A photovoltaic plant: effective area times global irradiance.
use vstd::prelude::*;
use crate::random::draw_between;

verus! {

/// Largest effective area, thousandths of a square metre.
pub const MAX_PV_AREA: i64 = 1_000_000_000;

/// Largest irradiance, W per square metre.
pub const MAX_IRRADIANCE: i64 = 10_000;

/// Lowest and highest random sizing factor, per mille.
pub const PV_FACTOR_LOW: i64 = 800;
pub const PV_FACTOR_HIGH: i64 = 1200;

/// A photovoltaic plant of given effective area (thousandths of a square metre).
#[derive(Debug, Clone, Copy)]
pub struct PV {
    a: i64,
}

/// Effective area (thousandths of a square metre) of a building's plant
/// sized with factor `f`, summed consumption factor `coc` and mean
/// photovoltaic-demand factor `demand` (all per mille) for a yearly
/// irradiation `eg` (kWh per square metre).
pub open spec fn building_pv_area(f: int, coc: int, demand: int, eg: int) -> int {
    f * coc * demand / (eg * 1000)
}

/// Sizing a building's plant succeeds for every drawn factor: arguments in
/// range and the area at the largest factor no larger than the largest area.
pub open spec fn pv_sizing_fits(eg: int, coc: int, demand: int) -> bool {
    &&& 1 <= eg <= MAX_IRRADIANCE
    &&& 0 <= coc <= 1_000_000_000
    &&& 0 <= demand <= 1000
    &&& building_pv_area(PV_FACTOR_HIGH as int, coc, demand, eg) <= MAX_PV_AREA
}

/// The area grows with the sizing factor.
pub proof fn lemma_area_grows_with_factor(f: int, eg: int, coc: int, demand: int)
    requires
        0 <= f <= PV_FACTOR_HIGH,
        1 <= eg,
        0 <= coc,
        0 <= demand,
    ensures
        building_pv_area(f, coc, demand, eg) <= building_pv_area(PV_FACTOR_HIGH as int, coc, demand, eg),
{
    assert(f * coc * demand <= PV_FACTOR_HIGH * coc * demand) by (nonlinear_arith)
        requires 0 <= f <= PV_FACTOR_HIGH, 0 <= coc, 0 <= demand;
    vstd::arithmetic::div_mod::lemma_div_is_ordered(f * coc * demand, PV_FACTOR_HIGH * coc * demand, eg * 1000);
}

impl PV {
    /// Effective area, thousandths of a square metre.
    pub closed spec fn area(&self) -> int {
        self.a as int
    }

    /// Area in range.
    pub open spec fn wf(&self) -> bool {
        0 <= self.area() <= MAX_PV_AREA
    }

    /// A plant of effective area `a` (thousandths of a square metre), as a
    /// cell's plant is given; `None` where it is negative or too large.
    pub fn size_cell_pv(a: i64) -> (r: Option<PV>)
        ensures
            r is Some <==> 0 <= a <= MAX_PV_AREA,
            r matches Some(p) ==> p.wf() && p.area() == a,
    {
        if 0 <= a && a <= MAX_PV_AREA {
            Some(PV { a })
        } else {
            None
        }
    }

    /// A building's plant sized with factor `f`; see [`building_pv_area`].
    /// `None` where an argument is out of range or the area is too large.
    pub fn size_building_pv_with(f: i64, eg: i64, coc: i64, demand: i64) -> (r: Option<PV>)
        ensures
            r is Some <==> (0 <= f <= PV_FACTOR_HIGH && 1 <= eg <= MAX_IRRADIANCE && 0 <= coc
                <= 1_000_000_000 && 0 <= demand <= 1000 && building_pv_area(f as int, coc as int, demand as int, eg as int) <= MAX_PV_AREA),
            r matches Some(p) ==> p.wf() && p.area() == building_pv_area(f as int, coc as int, demand as int, eg as int),
    {
        if !(0 <= f && f <= PV_FACTOR_HIGH && 1 <= eg && eg <= MAX_IRRADIANCE && 0 <= coc && coc <= 1_000_000_000 && 0 <= demand && demand <= 1000) {
            return None;
        }
        assert(0 <= f * coc <= PV_FACTOR_HIGH * 1_000_000_000) by (nonlinear_arith)
            requires 0 <= f <= PV_FACTOR_HIGH, 0 <= coc <= 1_000_000_000;
        assert(0 <= f * coc * demand <= PV_FACTOR_HIGH * 1_000_000_000 * 1000) by (nonlinear_arith)
            requires 0 <= f * coc <= PV_FACTOR_HIGH * 1_000_000_000, 0 <= demand <= 1000;
        let a = (f as i128 * coc as i128 * demand as i128 / (eg as i128 * 1000)) as i64;
        assert(0 <= f * coc * demand / (eg * 1000) <= f * coc * demand) by {
            vstd::arithmetic::div_mod::lemma_div_is_ordered_by_denominator(f * coc * demand, 1, eg * 1000);
            vstd::arithmetic::div_mod::lemma_div_pos_is_pos(f * coc * demand, eg * 1000);
        }
        PV::size_cell_pv(a)
    }

    /// A building's plant with the sizing factor drawn in `[0.8, 1.2]`.
    pub fn size_building_pv(eg: i64, coc: i64, demand: i64) -> (r: Option<PV>)
        ensures
            r matches Some(p) ==> p.wf() && exists|f: int|
                PV_FACTOR_LOW <= f <= PV_FACTOR_HIGH && p.area() == #[trigger] building_pv_area(f, coc as int, demand as int, eg as int),
            pv_sizing_fits(eg as int, coc as int, demand as int) ==> r is Some,
    {
        let f = draw_between(PV_FACTOR_LOW as u64, PV_FACTOR_HIGH as u64) as i64;
        proof {
            if pv_sizing_fits(eg as int, coc as int, demand as int) {
                lemma_area_grows_with_factor(f as int, eg as int, coc as int, demand as int);
            }
        }
        PV::size_building_pv_with(f, eg, coc, demand)
    }

    /// Effective area, thousandths of a square metre.
    pub fn get_area(&self) -> (r: i64)
        ensures
            r == self.area(),
    {
        self.a
    }

    /// Electrical power (W) at global irradiance `eg` (W per square metre).
    pub fn step(&self, eg: i64) -> (r: i64)
        requires
            self.wf(),
            0 <= eg <= MAX_IRRADIANCE,
        ensures
            r == self.area() * eg / 1000,
            0 <= r <= MAX_PV_AREA * MAX_IRRADIANCE / 1000,
    {
        assert(0 <= self.a * eg <= MAX_PV_AREA * MAX_IRRADIANCE) by (nonlinear_arith)
            requires 0 <= self.a <= MAX_PV_AREA, 0 <= eg <= MAX_IRRADIANCE;
        self.a * eg / 1000
    }
}

} // verus!

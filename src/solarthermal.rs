//! A solar-thermal plant: effective area times global irradiance times efficiency.
use vstd::prelude::*;
use crate::pv::{building_pv_area, pv_sizing_fits, lemma_area_grows_with_factor, MAX_IRRADIANCE, MAX_PV_AREA, PV_FACTOR_HIGH, PV_FACTOR_LOW};
use crate::random::draw_between;

verus! {

/// Lowest and highest efficiency (per mille) drawn for a plant.
pub const SOLARTHERMAL_EFFICIENCY_LOW: i64 = 800;
pub const SOLARTHERMAL_EFFICIENCY_HIGH: i64 = 900;

/// A solar-thermal plant of effective area (thousandths of a square metre)
/// and efficiency (per mille).
#[derive(Debug, Clone, Copy)]
pub struct Solarthermal {
    a: i64,
    efficiency: i64,
}

impl Solarthermal {
    /// Effective area, thousandths of a square metre.
    pub closed spec fn area(&self) -> int {
        self.a as int
    }

    /// Efficiency, per mille.
    pub closed spec fn efficiency_spec(&self) -> int {
        self.efficiency as int
    }

    /// Area and efficiency in range.
    pub open spec fn wf(&self) -> bool {
        0 <= self.area() <= MAX_PV_AREA && 0 <= self.efficiency_spec() <= 1000
    }

    /// A plant of effective area `a` and efficiency `efficiency`; `None`
    /// where either is out of range.
    pub fn with_parameters(a: i64, efficiency: i64) -> (r: Option<Solarthermal>)
        ensures
            r is Some <==> (0 <= a <= MAX_PV_AREA && 0 <= efficiency <= 1000),
            r matches Some(s) ==> s.wf() && s.area() == a && s.efficiency_spec() == efficiency,
    {
        if 0 <= a && a <= MAX_PV_AREA && 0 <= efficiency && efficiency <= 1000 {
            Some(Solarthermal { a, efficiency })
        } else {
            None
        }
    }

    /// A plant sized like a building's photovoltaic plant (see
    /// [`building_pv_area`]) with sizing factor and efficiency drawn at random.
    pub fn new(eg: i64, coc: i64, demand: i64) -> (r: Option<Solarthermal>)
        ensures
            r matches Some(s) ==> s.wf() && SOLARTHERMAL_EFFICIENCY_LOW <= s.efficiency_spec() <= SOLARTHERMAL_EFFICIENCY_HIGH
                && exists|f: int| PV_FACTOR_LOW <= f <= PV_FACTOR_HIGH && s.area() == #[trigger] building_pv_area(f, coc as int, demand as int, eg as int),
            pv_sizing_fits(eg as int, coc as int, demand as int) ==> r is Some,
    {
        let f = draw_between(PV_FACTOR_LOW as u64, PV_FACTOR_HIGH as u64) as i64;
        let efficiency = draw_between(SOLARTHERMAL_EFFICIENCY_LOW as u64, SOLARTHERMAL_EFFICIENCY_HIGH as u64) as i64;
        proof {
            if pv_sizing_fits(eg as int, coc as int, demand as int) {
                lemma_area_grows_with_factor(f as int, eg as int, coc as int, demand as int);
            }
        }
        match crate::pv::PV::size_building_pv_with(f, eg, coc, demand) {
            Some(p) => {
                let a = p.get_area();
                Solarthermal::with_parameters(a, efficiency)
            },
            None => None,
        }
    }

    /// Thermal power (W) at global irradiance `eg` (W per square metre).
    pub fn step(&self, eg: i64) -> (r: i64)
        requires
            self.wf(),
            0 <= eg <= MAX_IRRADIANCE,
        ensures
            r == self.area() * eg * self.efficiency_spec() / 1_000_000,
            r >= 0,
    {
        assert(0 <= self.a * eg <= MAX_PV_AREA * MAX_IRRADIANCE) by (nonlinear_arith)
            requires 0 <= self.a <= MAX_PV_AREA, 0 <= eg <= MAX_IRRADIANCE;
        assert(0 <= self.a * eg * self.efficiency <= MAX_PV_AREA * MAX_IRRADIANCE * 1000) by (nonlinear_arith)
            requires 0 <= self.a * eg <= MAX_PV_AREA * MAX_IRRADIANCE, 0 <= self.efficiency <= 1000;
        self.a * eg * self.efficiency / 1_000_000
    }
}

} // verus!

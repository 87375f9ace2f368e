use system_components::agent::{Agent, AgentType};
use system_components::boiler::Boiler;
use system_components::chp::CHP;
use system_components::heatpump::{cop_from_coefficients, q_from_coefficients, Heatpump};
use system_components::pv::PV;

#[test]
fn boiler_fuel_follows_efficiency() {
    let mut b = Boiler::with_efficiency(10_000, 800).unwrap();
    assert_eq!(b.step(true), (10_000, 12_500));
    assert_eq!(b.step(false), (0, 0));
    assert_eq!(b.get_fuel(4000), 5000);
    assert!(Boiler::with_efficiency(10_000, 0).is_none());
    assert!(!b.set_efficiency(1200));
    assert!(b.set_efficiency(1000));
    assert_eq!(b.get_fuel(4000), 4000);
}

#[test]
fn random_boiler_efficiency_in_range() {
    for _ in 0..20 {
        let mut b = Boiler::new(1000).unwrap();
        let (t, f) = b.step(true);
        assert_eq!(t, 1000);
        assert!(f >= 1111 && f <= 1250);
    }
    assert!(Boiler::new(-1).is_none());
}

#[test]
fn chp_outputs_when_on() {
    let mut c = CHP::new(10_000).unwrap();
    assert_eq!(c.step(true), (5000, 10_000, 16_666));
    assert_eq!(c.step(false), (0, 0, 0));
    assert!(CHP::new(-5).is_none());
}

#[test]
fn heatpump_correlations_exact() {
    // 5.398 - 0.05601*35 + 0.14818*5 - 0.00185*35*5 + 0.0008*25 = 3.8748
    assert_eq!(cop_from_coefficients(10_000, 500, 3500), 3_874_800_000);
    // medium unit, mild band: 0.93526 - 0.0005*35 + 0.03926*8 - 0.00021*35*8
    assert_eq!(q_from_coefficients(20_000, 800, 3500), 1_173_040_000);
    // large unit, warm band
    assert_eq!(cop_from_coefficients(40_000, 1200, 4000), 4_064_420_000);
}

#[test]
fn heatpump_modulation_and_output() {
    let mut hp = Heatpump::new(10_000, 3500, -1000).unwrap();
    assert_eq!(hp.step(0, 500), (0, 0));
    // q at 5 degC: 1.04213 - 0.0819 + 0.1576 - 0.03325 = 1.08458
    let (e, t) = hp.step(1000, 500);
    assert_eq!(t, 10_845);
    assert_eq!(e, 2798);
    // below the minimum partial load the pump runs at 20 %
    let (_, t_min) = hp.step(50, 500);
    assert_eq!(t_min, 2169);
    assert_eq!(hp.get_t_min_working(), -1000);
}

#[test]
fn agent_demands() {
    let a = Agent::new(AgentType::Household, 2000, 300).unwrap();
    assert_eq!(a.get_yearly_hot_water_demand(), (6847 * 2000 + 3_144_000) / 87600);
    assert_eq!(a.step_with([500, 0, 0], 1000, 1000, 1000), (1000, 192));
    let small = Agent::new(AgentType::Business, 200, 0).unwrap();
    assert_eq!(small.coc(), 1000);
    assert_eq!(small.get_yearly_hot_water_demand(), 114);
    assert!(Agent::new(AgentType::Household, 200_000, 0).is_none());
    let (e, _) = a.step([500, 0, 0], 1000);
    assert!(e >= 800 && e <= 1200);
}

#[test]
fn agent_coc_overwrite() {
    let mut a = Agent::new(AgentType::Agriculture, 1000, 0).unwrap();
    assert!(a.overwrite_coc(3000));
    assert_eq!(a.coc(), 3000);
    assert_eq!(a.get_yearly_hot_water_demand(), (6847 * 3000 + 3_144_000) / 87600);
    assert!(!a.overwrite_coc(10));
    assert_eq!(a.coc(), 3000);
}

#[test]
fn pv_power() {
    let p = PV::size_cell_pv(20_000).unwrap();
    assert_eq!(p.step(500), 10_000);
    let b = PV::size_building_pv_with(1000, 1000, 3000, 500).unwrap();
    // 1.0 * 3.0 * 1000 / 1000 * 0.5 m2 = 1.5 m2
    assert_eq!(b.step(1000), 1500);
    assert!(PV::size_cell_pv(-1).is_none());
}

#[test]
fn heatpump_below_unit_cop_still_runs() {
    // medium unit at 70 degC supply and -20 degC outside: COP 0.77044
    assert_eq!(cop_from_coefficients(20_000, -2000, 7000), 770_440_000);
    let mut hp = Heatpump::new(20_000, 7000, -2000).unwrap();
    assert_eq!(hp.step(1000, -2000), (11_104, 8555));
}

#[test]
fn heatpump_follows_formula_below_zero_power_factor() {
    // small unit at -40 degC: Q = -0.03457, COP = 1.38045
    assert_eq!(q_from_coefficients(10_000, -4000, 3500), -34_570_000);
    let mut hp = Heatpump::new(10_000, 3500, -4000).unwrap();
    assert_eq!(hp.step(1000, -4000), (-251, -346));
}

use system_components::cell::Cell;
use system_components::solarthermal::Solarthermal;
use system_components::wind::Wind;
use system_components::agent::AgentType;
use system_components::building::{AmbientParameters, Building, HeatingSystem, InstallError};
use system_components::control::Controller;
use system_components::hist_memory::HistMemory;
use system_components::pv::PV;
use system_components::sep_bsl_agent::SepBSLagent;
use system_components::storage::{test_generic_storage, GenericStorage};

#[test]
fn history_keeps_last_values() {
    let mut h = HistMemory::new(3);
    for v in 1..=5 {
        h.save(v);
    }
    assert_eq!(h.get_memory(), vec![3, 4, 5]);
    h.resize(2);
    assert_eq!(h.get_memory(), vec![3, 4]);
    h.resize(5);
    h.save(9);
    assert_eq!(h.get_memory(), vec![3, 4, 9]);
    h.clear();
    assert!(h.get_memory().is_empty());
    let mut none = HistMemory::new(0);
    none.save(1);
    assert!(none.get_memory().is_empty());
}

#[test]
fn standalone_agent_load_and_generation() {
    assert!(SepBSLagent::new(AgentType::Household, 1000, 0).is_none());
    let mut a = SepBSLagent::new(AgentType::Business, 500, 100).unwrap();
    assert_eq!(a.coc(), 1000);
    assert_eq!(a.step_with([0, 0, 400], 800, 1000), (0, 400));
    assert!(a.add_pv(PV::size_cell_pv(5000).unwrap()));
    assert!(!a.add_pv(PV::size_cell_pv(5000).unwrap()));
    assert_eq!(a.step_with([0, 0, 400], 800, 1200), (4000, 480));
}

#[test]
fn controller_alternates() {
    let mut c = Controller::new();
    assert!(!c.get_chp_state());
    c.step();
    assert!(c.get_chp_state());
    c.step();
    assert!(!c.get_chp_state());
    assert!(c.heatpump_state);
}

#[test]
fn free_storage_step() {
    let mut s = GenericStorage::with_charge(4000, 1000, 1000, 0, 2000, 2000).unwrap();
    assert_eq!(test_generic_storage(&mut s, 400), (0, 0));
    assert_eq!(s.get_charge(), 2400);
}

#[test]
fn ambient_values() {
    let a = AmbientParameters::new(-250, 100, 300, [10, 20, 30, 40], 550);
    assert_eq!(a.get_values(), (-250, 100, 300, [10, 20, 30, 40], 550));
}

#[test]
fn dimensioned_installs() {
    let areas = vec![(100, 500), (20, 1500)];
    let mut b = Building::new(4, 150, &areas, 100, 0, 0, 10_000, 500, 0, false, -1200).unwrap();
    assert_eq!(b.add_dimensioned_chp(), Ok(()));
    assert!(matches!(b.get_heating_system(), Some(HeatingSystem::Chp(_))));
    assert_eq!(b.add_dimensioned_chp(), Err(InstallError::Occupied));
    let year = vec![-500i16; 8760];
    assert_eq!(b.add_dimensioned_heatpump(3000, 3500, &year, -1200), Err(InstallError::Occupied));
    assert_eq!(b.add_dimensioned_pv(1000), Ok(()));
    assert_eq!(b.add_dimensioned_pv(1000), Err(InstallError::Occupied));
}

#[test]
fn solar_thermal_plant() {
    let p = Solarthermal::with_parameters(10_000, 850).unwrap();
    assert_eq!(p.step(600), 5100);
    assert!(Solarthermal::with_parameters(10_000, 1001).is_none());
    let mut c = Cell::new(-1200);
    assert!(c.add_solarthermal(p).is_ok());
    assert!(c.add_solarthermal(p).is_err());
    let amb = AmbientParameters::new(1000, 1000, 600, [0; 4], 0);
    assert_eq!(c.step([0, 0, 0], 0, &amb), (0, 0, 5100, 0));
    let sized = Solarthermal::new(1000, 3000, 500).unwrap();
    let t = sized.step(1000);
    assert!(t >= 1200 * 8 / 10 && t <= 1800 * 9 / 10);
}

#[test]
fn wind_turbine_power() {
    let w = Wind::new(1000, 1000, 300, 1200, 2500, 1000).unwrap();
    // 1 m2 * 1.2 kg/m3 * (10 m/s)^3
    assert_eq!(w.step(1000), 1200);
    // held at the optimum of 12 m/s
    assert_eq!(w.step(2000), 2073);
    assert_eq!(w.step(3000), 0);
    assert_eq!(w.step(200), 0);
    let hub = Wind::new(1500, 1000, 300, 1200, 2500, 1000).unwrap();
    assert_eq!(hub.step(800), 2073);
    assert!(Wind::new(1000, -1, 0, 0, 0, 0).is_none());
    let mut c = Cell::new(0);
    assert!(c.add_wind_turbine(w).is_ok());
    assert!(c.add_wind_turbine(w).is_err());
    let amb = AmbientParameters::new(1000, 1000, 0, [0; 4], 1000);
    assert_eq!(c.step([0, 0, 0], 0, &amb), (1200, 0, 0, 0));
}

use system_components::agent::{Agent, AgentType};
use system_components::building::{AmbientParameters, Building, BuildingError, InstallError};
use system_components::cell::{Cell, CellChpSystemThermal, CellError};
use system_components::control::Dispatch;
use system_components::chp_system::BuildingChpSystem;
use system_components::pv::PV;

fn calm(t_out: i16) -> AmbientParameters {
    AmbientParameters { t_out, t_mean_day: t_out, irradiation_glob: 0, specific_gains: [0; 4], wind_speed: 0 }
}

fn house(is_at_dhn: bool) -> Building {
    let areas = vec![(100, 500), (20, 1500)];
    Building::new(4, 150, &areas, 100, 0, 0, 10_000, 500, 0, is_at_dhn, -1200).unwrap()
}

#[test]
fn norm_heating_load_and_heat_limit() {
    let b = house(false);
    // 100 m2 * 0.6 W/m2K + 20 m2 * 1.6 W/m2K = 92 W/K over 32 K
    assert_eq!(b.q_hln(), 2944);
    // 0.05 * 2944 / 150 + 10.34 degC
    assert_eq!(b.get_heat_limit_temperature(), 1132);
    assert!(b.is_self_supplied_t());
}

#[test]
fn district_heating_without_system() {
    let mut b = house(true);
    assert!(!b.has_heating_system());
    assert!(!b.is_self_supplied_t());
    let r = b.step_with_loads(0, 300, &calm(0));
    // request 92 W/K * 20 K, plus hot water, all drawn from the network
    assert_eq!(r, (0, 0, 0, 2140));
    assert_eq!(b.get_temperature(), 2000);
}

#[test]
fn not_at_district_heating_has_no_network_load() {
    let mut b = house(false);
    let r = b.step_with_loads(500, 300, &calm(0));
    assert_eq!(r.2, 0);
    assert_eq!(r.3, 0);
    assert_eq!(r.1, 500);
}

#[test]
fn envelope_cools_without_heat() {
    let mut b = house(false);
    // no heat input at all: temperature falls towards outside
    let demand = b.get_space_heating_demand(0, 0);
    assert!(b.get_temperature() < 2000);
    assert_eq!(demand, 92_000 * b.get_temperature() as i64 / 100_000);
}

#[test]
fn single_slots_reject_second_install() {
    let mut b = house(false);
    assert_eq!(b.add_pv(PV::size_cell_pv(1000).unwrap()), Ok(()));
    assert_eq!(b.add_pv(PV::size_cell_pv(1000).unwrap()), Err(InstallError::Occupied));
    let sys = BuildingChpSystem::new(b.q_hln(), 1000).unwrap();
    assert_eq!(b.add_chp(sys), Ok(()));
    assert!(!b.is_self_supplied_t());
    let sys2 = BuildingChpSystem::new(b.q_hln(), 1000).unwrap();
    assert_eq!(b.add_chp(sys2), Err(InstallError::Occupied));
}

#[test]
fn agent_capacity() {
    let mut b = house(false);
    for _ in 0..4 {
        assert_eq!(b.add_agent(Agent::new(AgentType::Household, 1500, 500).unwrap()), Ok(()));
    }
    assert_eq!(b.add_agent(Agent::new(AgentType::Household, 1500, 500).unwrap()), Err(InstallError::Full));
    assert_eq!(b.n_agents(), 4);
    assert_eq!(b.replace_agent(3, Agent::new(AgentType::Business, 1000, 0).unwrap()), Ok(()));
    assert_eq!(b.replace_agent(4, Agent::new(AgentType::Business, 1000, 0).unwrap()), Err(InstallError::NoSuchAgent));
}

#[test]
fn building_with_heating_system_steps() {
    let mut b = house(false);
    b.add_agent(Agent::new(AgentType::Household, 1500, 500).unwrap()).unwrap();
    b.add_chp(BuildingChpSystem::new(b.q_hln(), 1000).unwrap()).unwrap();
    for _ in 0..20 {
        let r = b.step([300, 0, 0], 1000, &calm(-500));
        assert_eq!(r.2, 0);
        assert_eq!(r.3, 0);
        assert!(r.0 >= 0 && r.1 >= 0);
    }
}

#[test]
fn building_errors() {
    let areas = vec![(100, 500), (20, 1500)];
    assert_eq!(Building::new(0, 150, &areas, 100, 0, 0, 10_000, 500, 0, false, -1200).unwrap_err(), BuildingError::Agents);
    assert_eq!(Building::new(1, 0, &areas, 100, 0, 0, 10_000, 500, 0, false, -1200).unwrap_err(), BuildingError::LivingSpace);
    assert_eq!(Building::new(1, 150, &vec![(1, 1)], 100, 0, 0, 10_000, 500, 0, false, -1200).unwrap_err(), BuildingError::Areas);
    assert_eq!(Building::new(1, 150, &vec![(1, 1), (-1, 1)], 100, 0, 0, 10_000, 500, 0, false, -1200).unwrap_err(), BuildingError::Areas);
    assert_eq!(Building::new(1, 150, &areas, 0, 0, 0, 10_000, 500, 0, false, -1200).unwrap_err(), BuildingError::UValueOffset);
    assert_eq!(Building::new(1, 150, &areas, 100, -1, 0, 10_000, 500, 0, false, -1200).unwrap_err(), BuildingError::AirExchange);
    assert_eq!(Building::new(1, 150, &areas, 100, 0, 0, 10_000, 500, -1, false, -1200).unwrap_err(), BuildingError::Volume);
    assert_eq!(Building::new(1, 150, &areas, 100, 0, 0, 10_000, 1001, 0, false, -1200).unwrap_err(), BuildingError::SolarFactor);
    assert_eq!(Building::new(1, 150, &areas, 100, 0, 0, 0, 500, 0, false, -1200).unwrap_err(), BuildingError::HeatCapacity);
}

#[test]
fn cell_aggregates_buildings_and_sub_cells() {
    let mut sub = Cell::new(-1200);
    sub.add_building(house(true));
    let mut root = Cell::new(-1200);
    root.add_building(house(true));
    assert_eq!(root.add_cell(sub), Ok(()));
    let r = root.step([0, 0, 0], 1000, &calm(0));
    assert_eq!(r, (0, 0, 0, 2 * 1840));
    let state = root.get_state();
    assert_eq!(state.load_t, 2 * 1840);
}

#[test]
fn cell_plant_and_slots() {
    let mut c = Cell::new(-1200);
    assert_eq!(c.add_pv(PV::size_cell_pv(10_000).unwrap()), Ok(()));
    assert_eq!(c.add_pv(PV::size_cell_pv(10_000).unwrap()), Err(CellError::Occupied));
    let amb = AmbientParameters { t_out: 1000, t_mean_day: 1000, irradiation_glob: 800, specific_gains: [0; 4], wind_speed: 0 };
    assert_eq!(c.step([0, 0, 0], 0, &amb), (8000, 0, 0, 0));
}

#[test]
fn cell_thermal_system_follows_flags() {
    let mut ts = CellChpSystemThermal::new(10_000, 500, 40_000, 0, 1000, 1000).unwrap();
    let (e, t, f) = ts.step_with(Dispatch { boiler: true, primary: true }, 0);
    assert_eq!(e, 2500);
    assert!(t >= 0);
    assert!(f > 0);
    let mut c = Cell::new(-1200);
    c.add_building(house(true));
    assert_eq!(c.add_chp_thermal(ts), Ok(()));
    let r = c.step([0, 0, 0], 1000, &calm(0));
    assert_eq!(r.3, 1840);
    assert!(r.2 >= 0);
}

#[test]
fn cell_replaces_buildings() {
    let mut c = Cell::new(-1200);
    assert_eq!(c.replace_building(0, house(true)), Err(CellError::NoSuchBuilding));
    c.add_building(house(false));
    assert_eq!(c.replace_building(0, house(true)), Ok(()));
    let r = c.step([0, 0, 0], 1000, &calm(0));
    assert_eq!(r.3, 1840);
}

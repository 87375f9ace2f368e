use system_components::control::ControlMode;
use system_components::heatpump_system::BuildingHeatpumpSystem;
use system_components::chp_system::DesignError;
use system_components::sizing::{find_minimum, size_heatpump, SizingError};
use system_components::tank::{
    find_heat_storage_loss_parameter, find_heating_system_storage, find_hot_water_system_storage,
    heating_system_storage_for, isqrt, min_index, tank_capacity,
};

fn constant_year(t: i16) -> Vec<i16> {
    vec![t; 8760]
}

fn split_days(cold: i16, warm: i16) -> Vec<i16> {
    let mut v = Vec::new();
    for _ in 0..365 {
        for h in 0..24 {
            v.push(if h < 12 { cold } else { warm });
        }
    }
    v
}

#[test]
fn reachable_target_is_met_at_first_candidate() {
    let s = size_heatpump(8000, 3000, 3500, &constant_year(-500), 1500, -1200).unwrap();
    assert_eq!(s.t_min, -500);
    assert_eq!(s.iterations, 1);
    assert_eq!(s.pow_t, 7088);
}

#[test]
fn unreachable_target_fails_deterministically() {
    // past the only candidate with heating hours the installed power on the
    // heating line falls below the floor before the heat limit is reached
    for _ in 0..2 {
        assert_eq!(
            size_heatpump(8000, 3100, 3500, &constant_year(-500), 1500, -1200),
            Err(SizingError::PowerTooLow)
        );
    }
    // a large load keeps the power above the floor up to the heat limit
    for _ in 0..2 {
        assert_eq!(
            size_heatpump(100_000, 9000, 3500, &constant_year(-500), 1500, -1200),
            Err(SizingError::TargetUnreachable)
        );
    }
}

#[test]
fn minimum_working_temperature_rises_until_target_met() {
    let s = size_heatpump(8000, 3500, 3500, &split_days(-1500, 500), 1500, -1200).unwrap();
    assert_eq!(s.t_min, -1400);
    assert_eq!(s.iterations, 2);
    assert_eq!(s.pow_t, 14038);
}

#[test]
fn sizing_parameter_errors() {
    assert_eq!(size_heatpump(8000, 3000, 3500, &vec![0; 100], 1500, -1200), Err(SizingError::Parameter));
    assert_eq!(size_heatpump(8000, 3000, 3500, &constant_year(-500), 1500, 1500), Err(SizingError::Parameter));
    assert_eq!(size_heatpump(-1, 3000, 3500, &constant_year(-500), 1500, -1200), Err(SizingError::Parameter));
}

#[test]
fn heatpump_system_from_reference_year() {
    let sys = BuildingHeatpumpSystem::new(8000, 3000, 3500, &constant_year(-500), 1500, -1200).unwrap();
    assert_eq!(sys.get_heatpump().get_power(), 9450);
    assert_eq!(sys.get_heatpump().get_t_min_working(), -500);
    assert_eq!(sys.get_control_mode(), ControlMode::Intermediate);
    match BuildingHeatpumpSystem::new(8000, 3100, 3500, &constant_year(-500), 1500, -1200) {
        Err(e) => assert_eq!(e, DesignError::Sizing(SizingError::PowerTooLow)),
        Ok(_) => panic!("target cannot be met"),
    }
}

#[test]
fn heatpump_system_step_supplies_demand() {
    let mut sys = BuildingHeatpumpSystem::new(8000, 3000, 3500, &constant_year(-500), 1500, -1200).unwrap();
    for _ in 0..10 {
        let (e, t) = sys.step(2000, 300, 0, 1500, 0);
        assert!(e <= 0);
        assert!(t >= 0);
    }
}

#[test]
fn tank_sizing() {
    // 10 kW at 75 l/kW is 750 l exactly
    assert_eq!(heating_system_storage_for(10_000, 4000, 75), (137_097, 750));
    // 12 kW at 50 l/kW is 600 l
    assert_eq!(heating_system_storage_for(12_000, 4000, 50).1, 600);
    // ties go to the first volume: 250 l lies between 200 l and 300 l
    assert_eq!(heating_system_storage_for(5000, 4000, 50).1, 200);
    assert_eq!(heating_system_storage_for(1_000_000, 4000, 100).1, 5000);
    let (cap, vol) = find_heating_system_storage(10_000, 4000);
    assert!(vol >= 500 && vol <= 950);
    assert_eq!(cap, tank_capacity(vol, 4000));
}

#[test]
fn hot_water_tank_sizing() {
    // n = 1: 5820 Wh * 2 needs more than 169.9 l at 60 K
    assert_eq!(find_hot_water_system_storage(1000, 6000), tank_capacity(200, 6000));
    assert_eq!(tank_capacity(200, 6000), 54_838);
    // n = 10: 5820 * (10 + 3.162) Wh needs about 1118 l
    assert_eq!(find_hot_water_system_storage(10_000, 6000), tank_capacity(1500, 6000));
    assert_eq!(find_hot_water_system_storage(1_000_000, 6000), tank_capacity(5000, 6000));
}

#[test]
fn heat_storage_loss() {
    // 750 l: 4.8791 m2 at 15 W/m2 over 137097 watt-steps (34274 Wh)
    assert_eq!(find_heat_storage_loss_parameter(750, 137_097), 48_791 * 15 * 400 / 137_097);
    assert_eq!(find_heat_storage_loss_parameter(200, 1), 4_000_000);
}

#[test]
fn helpers() {
    assert_eq!(min_index(&vec![5, 3, 7, 3, 9]), 1);
    assert_eq!(min_index(&vec![4]), 0);
    assert_eq!(find_minimum(&vec![300, -200, 50, -200]), -200);
    assert_eq!(isqrt(0), 0);
    assert_eq!(isqrt(99), 9);
    assert_eq!(isqrt(100), 10);
    assert_eq!(isqrt(u64::MAX), 4_294_967_295);
}

use system_components::boiler::Boiler;
use system_components::chp::CHP;
use system_components::chp_system::BuildingChpSystem;
use system_components::heatpump::Heatpump;
use system_components::heatpump_system::BuildingHeatpumpSystem;
use system_components::control::{
    chp_dispatch, hp_dispatch, update_control_mode, ControlMode, Dispatch, HeatpumpDispatch,
};
use system_components::storage::GenericStorage;

fn chp_system_at(relative_sh: i64, relative_hw: i64, mode: ControlMode) -> BuildingChpSystem {
    let chp = CHP::new(4000).unwrap();
    let boiler = Boiler::with_efficiency(6000, 850).unwrap();
    let storage = GenericStorage::with_charge(100_000, 950, 950, 0, 10_000, relative_sh * 100).unwrap();
    let storage_hw = GenericStorage::with_charge(20_000, 950, 950, 0, 10_000, relative_hw * 20).unwrap();
    BuildingChpSystem::from_parts(chp, storage, storage_hw, boiler, mode)
}

#[test]
fn low_space_heating_charge_starts_both_sources() {
    let mut sys = chp_system_at(30, 500, ControlMode::Winter);
    sys.step(1000, 200, 1500, 0);
    assert_eq!(sys.get_control_mode(), ControlMode::Winter);
    let d = sys.get_dispatch();
    assert!(d.boiler);
    assert!(d.primary);
}

#[test]
fn low_space_heating_charge_starts_both_sources_in_every_mode() {
    for &mode in [ControlMode::Intermediate, ControlMode::Summer].iter() {
        let mut sys = chp_system_at(30, 500, mode);
        // a mean inside the mode's band keeps the mode
        let t_mean = if mode == ControlMode::Summer { 2000 } else { 1500 };
        sys.step(1000, 200, 1500, t_mean);
        assert_eq!(sys.get_control_mode(), mode);
        assert_eq!(sys.get_dispatch(), Dispatch { boiler: true, primary: true });
    }
}

#[test]
fn low_charge_starts_boiler_and_heat_pump() {
    for &mode in [ControlMode::Winter, ControlMode::Intermediate].iter() {
        let hp = Heatpump::new(8000, 3500, -1000).unwrap();
        let storage = GenericStorage::with_charge(100_000, 950, 950, 0, 20_000, 3000).unwrap();
        let boiler = Boiler::with_efficiency(8000, 850).unwrap();
        let mut sys = BuildingHeatpumpSystem::from_parts(hp, storage, boiler, mode);
        let t_mean = if mode == ControlMode::Winter { 0 } else { 1500 };
        sys.step(1000, 200, 0, 1500, t_mean);
        assert_eq!(sys.get_control_mode(), mode);
        assert_eq!(sys.get_dispatch(), HeatpumpDispatch { boiler: true, modulation: 1000 });
    }
}

#[test]
fn chp_step_supplies_demand_plus_unmet_and_losses() {
    let mut sys = chp_system_at(500, 500, ControlMode::Winter);
    let (e, t) = sys.step(1000, 200, 1500, 0);
    // charge in (L, H) and unit off: nothing runs
    assert_eq!(e, 0);
    assert_eq!(t, 1200 + sys.get_losses());
}

#[test]
fn no_chatter_within_band() {
    let s0 = Dispatch { boiler: true, primary: false };
    for &mode in [ControlMode::Winter, ControlMode::Intermediate, ControlMode::Summer].iter() {
        for &(r1, r2) in [(60, 190), (210, 290), (310, 940)].iter() {
            let s1 = chp_dispatch(mode, s0, r1, 60);
            let s2 = chp_dispatch(mode, s1, r2, 500);
            assert_eq!(s1, s2);
        }
    }
    let h0 = HeatpumpDispatch { boiler: true, modulation: 0 };
    for &mode in [ControlMode::Winter, ControlMode::Intermediate, ControlMode::Summer].iter() {
        for &(r1, r2) in [(60, 190), (210, 290), (310, 940)].iter() {
            let s1 = hp_dispatch(mode, h0, r1);
            assert_eq!(hp_dispatch(mode, s1, r2), s1);
        }
    }
}

#[test]
fn winter_thresholds() {
    let off = Dispatch { boiler: false, primary: false };
    assert_eq!(chp_dispatch(ControlMode::Winter, off, 50, 500), Dispatch { boiler: true, primary: true });
    assert_eq!(chp_dispatch(ControlMode::Winter, off, 200, 500), Dispatch { boiler: false, primary: true });
    let both = Dispatch { boiler: true, primary: true };
    assert_eq!(chp_dispatch(ControlMode::Winter, both, 300, 500), Dispatch { boiler: false, primary: true });
    let unit = Dispatch { boiler: false, primary: true };
    assert_eq!(chp_dispatch(ControlMode::Winter, unit, 950, 950), Dispatch { boiler: false, primary: false });
    // hot water below its low threshold keeps the unit on
    assert_eq!(chp_dispatch(ControlMode::Winter, unit, 960, 40), Dispatch { boiler: true, primary: true });
    // full space-heating storage stops both, whatever ran before
    assert_eq!(chp_dispatch(ControlMode::Winter, both, 950, 500), Dispatch { boiler: false, primary: false });
}

#[test]
fn summer_follows_hot_water() {
    let off = Dispatch { boiler: true, primary: false };
    assert_eq!(chp_dispatch(ControlMode::Summer, off, 500, 50), Dispatch { boiler: false, primary: true });
    let on = Dispatch { boiler: false, primary: true };
    assert_eq!(chp_dispatch(ControlMode::Summer, on, 500, 950), Dispatch { boiler: false, primary: false });
    // the low-low row holds in every mode
    assert_eq!(chp_dispatch(ControlMode::Summer, off, 10, 950), Dispatch { boiler: true, primary: true });
}

#[test]
fn control_mode_hysteresis() {
    // half-width 0.5 K: winter -> intermediate above 15.0 - 0.4
    assert_eq!(update_control_mode(ControlMode::Winter, 1500, 1460, 50), ControlMode::Winter);
    assert_eq!(update_control_mode(ControlMode::Winter, 1500, 1461, 50), ControlMode::Intermediate);
    assert_eq!(update_control_mode(ControlMode::Intermediate, 1500, 1560, 50), ControlMode::Intermediate);
    assert_eq!(update_control_mode(ControlMode::Intermediate, 1500, 1561, 50), ControlMode::Summer);
    assert_eq!(update_control_mode(ControlMode::Intermediate, 1500, 1439, 50), ControlMode::Winter);
    assert_eq!(update_control_mode(ControlMode::Summer, 1500, 1540, 50), ControlMode::Summer);
    assert_eq!(update_control_mode(ControlMode::Summer, 1500, 1539, 50), ControlMode::Intermediate);
}

#[test]
fn heatpump_modes() {
    let off = HeatpumpDispatch { boiler: false, modulation: 0 };
    assert_eq!(hp_dispatch(ControlMode::Winter, off, 10), HeatpumpDispatch { boiler: true, modulation: 1000 });
    assert_eq!(hp_dispatch(ControlMode::Summer, off, 30), HeatpumpDispatch { boiler: true, modulation: 1000 });
    let on = HeatpumpDispatch { boiler: true, modulation: 1000 };
    assert_eq!(hp_dispatch(ControlMode::Winter, on, 950), HeatpumpDispatch { boiler: false, modulation: 0 });
    assert_eq!(hp_dispatch(ControlMode::Intermediate, on, 301), HeatpumpDispatch { boiler: false, modulation: 0 });
    assert_eq!(hp_dispatch(ControlMode::Intermediate, on, 201), HeatpumpDispatch { boiler: false, modulation: 1000 });
}

#[test]
fn designed_chp_system_is_consistent() {
    let sys = BuildingChpSystem::new(10_000, 2000).unwrap();
    assert_eq!(sys.get_control_mode(), ControlMode::Intermediate);
    assert_eq!(sys.get_storage().get_capacity() > 0, true);
    assert!(BuildingChpSystem::new(-1, 1000).is_err());
}

use system_components::storage::{GenericStorage, StorageError};
use system_components::units::energy_from_wh;

fn ideal_storage(charge_wh: i64) -> GenericStorage {
    GenericStorage::with_charge(energy_from_wh(1000), 1000, 1000, 0, 2000, energy_from_wh(charge_wh)).unwrap()
}

#[test]
fn charge_within_capacity() {
    let mut s = ideal_storage(500);
    let (unmet, loss) = s.step(400);
    assert_eq!(unmet, 0);
    assert_eq!(loss, 0);
    assert_eq!(s.get_charge(), energy_from_wh(600));
}

#[test]
fn charge_beyond_capacity() {
    let mut s = ideal_storage(950);
    let (unmet, loss) = s.step(400);
    assert_eq!(unmet, 200);
    assert_eq!(loss, 0);
    assert_eq!(s.get_charge(), energy_from_wh(1000));
    assert_eq!(s.get_charge(), s.get_capacity());
}

#[test]
fn zero_power_only_self_discharge() {
    // 1% per hour on 4000 watt-steps: (4000 + 4000) * 10000 / 8e6 = 10
    let mut s = GenericStorage::with_charge(8000, 950, 950, 10_000, 2000, 4000).unwrap();
    let (unmet, loss) = s.step(0);
    assert_eq!(unmet, 0);
    assert_eq!(loss, 10);
    assert_eq!(s.get_charge(), 3990);
}

#[test]
fn zero_power_without_self_discharge_changes_nothing() {
    let mut s = ideal_storage(300);
    assert_eq!(s.step(0), (0, 0));
    assert_eq!(s.get_charge(), energy_from_wh(300));
}

#[test]
fn conservation_over_sampled_powers() {
    let powers: Vec<i64> = vec![-100_000, -5000, -2001, -2000, -777, -1, 0, 1, 333, 1999, 2000, 2001, 9000, 1_000_000];
    for &p in powers.iter() {
        for &charge in [0i64, 17, 2000, 3990, 4000].iter() {
            let mut s = GenericStorage::with_charge(4000, 900, 850, 20_000, 2000, charge).unwrap();
            let before = s.get_charge();
            let (unmet, loss) = s.step(p);
            let after = s.get_charge();
            assert_eq!(after - before, p - unmet - loss, "p = {}, charge = {}", p, charge);
            assert!(loss >= 0);
            if p >= 0 {
                assert!(0 <= unmet && unmet <= p);
            } else {
                assert!(p <= unmet && unmet <= 0);
            }
        }
    }
}

#[test]
fn bounds_hold_over_a_sequence() {
    let mut s = GenericStorage::with_charge(4000, 900, 900, 50_000, 1500, 1000).unwrap();
    let powers: Vec<i64> = vec![1500, 3000, 3000, 3000, 0, -800, -5000, -5000, -5000, 100, 0, 2500];
    for &p in powers.iter() {
        s.step(p);
        assert!(0 <= s.get_charge() && s.get_charge() <= s.get_capacity());
        let r = s.get_relative_charge();
        assert!(0 <= r && r <= 1000);
    }
}

#[test]
fn charging_losses_follow_efficiency() {
    let mut s = GenericStorage::with_charge(100_000, 800, 1000, 0, 10_000, 0).unwrap();
    let (unmet, loss) = s.step(1000);
    assert_eq!(unmet, 0);
    assert_eq!(loss, 200);
    assert_eq!(s.get_charge(), 800);
}

#[test]
fn discharging_draws_losses_on_top() {
    let mut s = GenericStorage::with_charge(100_000, 1000, 900, 0, 10_000, 5000).unwrap();
    let (unmet, loss) = s.step(-1000);
    assert_eq!(unmet, 0);
    assert_eq!(loss, 100);
    assert_eq!(s.get_charge(), 3900);
}

#[test]
fn discharge_limited_by_power_and_content() {
    let mut s = GenericStorage::with_charge(100_000, 1000, 1000, 0, 500, 5000).unwrap();
    assert_eq!(s.step(-800), (-300, 0));
    assert_eq!(s.get_charge(), 4500);
    let mut e = GenericStorage::with_charge(100_000, 1000, 1000, 0, 5000, 300).unwrap();
    assert_eq!(e.step(-1000), (-700, 0));
    assert_eq!(e.get_charge(), 0);
}

#[test]
fn relative_charge_in_per_mille() {
    let s = GenericStorage::with_charge(1000, 1000, 1000, 0, 10, 30).unwrap();
    assert_eq!(s.get_relative_charge(), 30);
}

#[test]
fn construction_errors() {
    assert_eq!(GenericStorage::with_charge(0, 1000, 1000, 0, 10, 0).unwrap_err(), StorageError::Capacity);
    assert_eq!(GenericStorage::with_charge(10, 1001, 1000, 0, 10, 0).unwrap_err(), StorageError::Efficiency);
    assert_eq!(GenericStorage::with_charge(10, 1000, -1, 0, 10, 0).unwrap_err(), StorageError::Efficiency);
    assert_eq!(GenericStorage::with_charge(10, 1000, 1000, -5, 10, 0).unwrap_err(), StorageError::SelfDischarge);
    assert_eq!(GenericStorage::with_charge(10, 1000, 1000, 0, -1, 0).unwrap_err(), StorageError::PowerLimit);
    assert_eq!(GenericStorage::with_charge(10, 1000, 1000, 0, 1, 11).unwrap_err(), StorageError::Charge);
    assert_eq!(GenericStorage::new(-3, 1000, 1000, 0, 1).unwrap_err(), StorageError::Capacity);
}

#[test]
fn random_initial_charge_within_capacity() {
    for _ in 0..20 {
        let s = GenericStorage::new(500, 950, 950, 0, 100).unwrap();
        assert!(0 <= s.get_charge() && s.get_charge() <= 500);
    }
}

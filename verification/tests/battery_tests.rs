use cubesat_eps::battery::Battery;
use cubesat_eps::enums::{BatteryState, FaultCause};

// Units: power in microwatts, energy in microwatt-hours, duration in
// thousandths of an hour, efficiencies in per-mille, health in percent.

#[test]
fn discharge_empties_battery_and_counts_cycle() {
    // 10 Wh capacity, 5 Wh stored, 5 W discharge limit, efficiency 0.9.
    let mut b = Battery::new(1, 10_000_000, 5_000_000, 3_700, 5_000_000, 5_000_000);
    // Demand 5 W for one hour: the store needs 5/0.9 ~ 5.56 Wh but holds
    // only 5 Wh, so it supplies all of it and delivers 5 * 0.9 = 4.5 W.
    let delivered = b.discharge(5_000_000, 1_000);
    assert_eq!(delivered, 4_500_000);
    assert_eq!(b.current_charge_uwh, 0);
    assert_eq!(b.state, BatteryState::Empty);
    assert_eq!(b.cycles, 1);
}

#[test]
fn discharge_partial_leaves_discharging_state() {
    let mut b = Battery::new(1, 10_000_000, 5_000_000, 3_700, 5_000_000, 5_000_000);
    // Demand 1 W for one hour: needs 1/0.9 ~ 1.11 Wh of the 5 Wh stored.
    let delivered = b.discharge(1_000_000, 1_000);
    // 1_111_111 uWh leave the store; 1_111_111 * 900 / 1000 = 999_999 uW
    // come out after the floor of the efficiency division.
    assert_eq!(delivered, 999_999);
    assert_eq!(b.current_charge_uwh, 5_000_000 - 1_111_111);
    assert_eq!(b.state, BatteryState::Discharging);
    assert_eq!(b.cycles, 0);
}

#[test]
fn discharge_on_empty_returns_zero() {
    let mut b = Battery::new(1, 10_000_000, 0, 3_700, 5_000_000, 5_000_000);
    let delivered = b.discharge(5_000_000, 1_000);
    assert_eq!(delivered, 0);
    assert_eq!(b.state, BatteryState::Empty);
    assert_eq!(b.cycles, 0);
}

#[test]
fn charge_adds_energy_with_efficiency_loss() {
    let mut b = Battery::new(1, 10_000_000, 0, 3_700, 5_000_000, 5_000_000);
    // 5 W for one hour draws 5 Wh; at 0.9 efficiency 4.5 Wh are stored.
    b.charge(5_000_000, 1_000);
    assert_eq!(b.current_charge_uwh, 4_500_000);
    assert_eq!(b.state, BatteryState::Charging);
}

#[test]
fn charge_clamps_at_effective_capacity() {
    let mut b = Battery::new(1, 1_000_000, 0, 3_700, 1_000_000_000_000, 5_000_000);
    b.charge(1_000_000_000_000, 1_000);
    assert_eq!(b.current_charge_uwh, 1_000_000);
    assert_eq!(b.state, BatteryState::Full);
    // A further charge does nothing beyond keeping the clamp.
    b.charge(1_000_000_000_000, 1_000);
    assert_eq!(b.current_charge_uwh, 1_000_000);
    assert_eq!(b.state, BatteryState::Full);
}

#[test]
fn charge_rate_is_capped_by_limit_and_health() {
    // Charge limit 2 W: a 10 W request charges at only 2 W.
    let mut b = Battery::new(1, 10_000_000, 0, 3_700, 2_000_000, 5_000_000);
    b.charge(10_000_000, 1_000);
    // 2 Wh drawn, 1.8 Wh stored.
    assert_eq!(b.current_charge_uwh, 1_800_000);
}

#[test]
fn round_trip_returns_less_energy_than_was_drawn() {
    let mut b = Battery::new(1, 10_000_000, 0, 3_700, 5_000_000, 5_000_000);
    // Charging draws 5 W x 1 h = 5 Wh from the source.
    b.charge(5_000_000, 1_000);
    // Fully discharge: 4.5 Wh stored, delivered at 0.9 efficiency.
    let delivered = b.discharge(5_000_000, 1_000);
    assert_eq!(delivered, 4_050_000);
    assert_eq!(b.state, BatteryState::Empty);
    // Energy out (power x duration) is strictly under the 5 Wh drawn.
    let out_uw_mh = (delivered as u128) * 1_000;
    let in_uw_mh = 5_000_000u128 * 1_000;
    assert!(out_uw_mh < in_uw_mh);
}

#[test]
fn soc_percentage_stays_within_bounds() {
    let b = Battery::new(1, 10_000_000, 5_000_000, 3_700, 5_000_000, 5_000_000);
    assert_eq!(b.get_soc_percentage(), 50);
    let full = Battery::new(2, 10_000_000, 10_000_000, 3_700, 5_000_000, 5_000_000);
    assert_eq!(full.get_soc_percentage(), 100);
    let empty = Battery::new(3, 10_000_000, 0, 3_700, 5_000_000, 5_000_000);
    assert_eq!(empty.get_soc_percentage(), 0);
    // Zero effective capacity reads as zero.
    let zero = Battery::new(4, 0, 0, 3_700, 5_000_000, 5_000_000);
    assert_eq!(zero.get_soc_percentage(), 0);
}

#[test]
fn health_degradation_below_threshold_faults() {
    let mut b = Battery::new(1, 10_000_000, 10_000_000, 3_700, 5_000_000, 5_000_000);
    b.apply_health_degradation(50);
    assert_eq!(b.health_pct, 50);
    // The effective capacity shrank to 5 Wh and the store was clamped.
    assert_eq!(b.get_effective_capacity_uwh(), 5_000_000);
    assert_eq!(b.current_charge_uwh, 5_000_000);
    assert_eq!(b.state, BatteryState::Idle);
    b.apply_health_degradation(31);
    assert_eq!(b.health_pct, 19);
    assert_eq!(b.state, BatteryState::Fault(FaultCause::SevereDegradation));
    // Health saturates at zero.
    b.apply_health_degradation(200);
    assert_eq!(b.health_pct, 0);
}

#[test]
fn fault_is_sticky_under_charge_and_discharge() {
    let mut b = Battery::new(1, 10_000_000, 5_000_000, 3_700, 5_000_000, 5_000_000);
    b.apply_health_degradation(90);
    assert_eq!(b.state, BatteryState::Fault(FaultCause::SevereDegradation));
    let stored = b.current_charge_uwh;
    b.charge(5_000_000, 1_000);
    assert_eq!(b.state, BatteryState::Fault(FaultCause::SevereDegradation));
    assert_eq!(b.current_charge_uwh, stored);
    let delivered = b.discharge(5_000_000, 1_000);
    assert_eq!(delivered, 0);
    assert_eq!(b.state, BatteryState::Fault(FaultCause::SevereDegradation));
    assert_eq!(b.current_charge_uwh, stored);
}

#[test]
fn fault_cause_has_description() {
    assert_eq!(
        FaultCause::SevereDegradation.description(),
        "severely degraded"
    );
    assert_eq!(FaultCause::OverTemperature.description(), "over temperature");
}

#[test]
fn initial_charge_is_clamped_to_capacity() {
    let b = Battery::new(1, 1_000_000, 9_000_000, 3_700, 5_000_000, 5_000_000);
    assert_eq!(b.current_charge_uwh, 1_000_000);
    assert_eq!(b.state, BatteryState::Idle);
    assert_eq!(b.cycles, 0);
}

use cubesat_eps::enums::EpsError;
use cubesat_eps::pdu::{Load, PowerDistributionUnit};

// Units: power in microwatts.

#[test]
fn load_demand_follows_switch_state() {
    let mut l = Load::new(7, 3_000_000, false);
    assert_eq!(l.get_power_demand_uw(), 0);
    l.turn_on();
    assert_eq!(l.get_power_demand_uw(), 3_000_000);
    l.turn_off();
    assert_eq!(l.get_power_demand_uw(), 0);
}

#[test]
fn add_load_rejects_duplicate_identifier() {
    let mut pdu = PowerDistributionUnit::new();
    assert!(pdu.add_load(Load::new(1, 1_000_000, false)).is_ok());
    let r = pdu.add_load(Load::new(1, 2_000_000, true));
    assert_eq!(r, Err(EpsError::DuplicateId));
    assert_eq!(pdu.loads.len(), 1);
}

#[test]
fn switch_load_toggles_only_the_named_load() {
    let mut pdu = PowerDistributionUnit::new();
    pdu.add_load(Load::new(1, 1_000_000, false)).unwrap();
    pdu.add_load(Load::new(2, 2_000_000, false)).unwrap();
    assert!(pdu.switch_load(2, true).is_ok());
    assert!(!pdu.loads[0].is_on);
    assert!(pdu.loads[1].is_on);
    assert!(pdu.switch_load(2, false).is_ok());
    assert!(!pdu.loads[1].is_on);
}

#[test]
fn switch_load_unknown_identifier_fails() {
    let mut pdu = PowerDistributionUnit::new();
    pdu.add_load(Load::new(1, 1_000_000, false)).unwrap();
    let r = pdu.switch_load(9, true);
    assert_eq!(r, Err(EpsError::NotFound));
    assert!(!pdu.loads[0].is_on);
}

#[test]
fn total_demand_sums_only_active_loads() {
    let mut pdu = PowerDistributionUnit::new();
    assert_eq!(pdu.get_total_demand_uw(), 0);
    pdu.add_load(Load::new(1, 1_000_000, false)).unwrap();
    pdu.add_load(Load::new(2, 2_000_000, true)).unwrap();
    pdu.add_load(Load::new(3, 4_000_000, false)).unwrap();
    pdu.switch_load(1, true).unwrap();
    pdu.switch_load(3, true).unwrap();
    assert_eq!(pdu.get_total_demand_uw(), 5_000_000);
}

#[test]
fn shedding_turns_off_only_non_critical_loads() {
    let mut pdu = PowerDistributionUnit::new();
    pdu.add_load(Load::new(1, 1_000_000, false)).unwrap();
    pdu.add_load(Load::new(2, 2_000_000, true)).unwrap();
    pdu.add_load(Load::new(3, 4_000_000, false)).unwrap();
    pdu.switch_load(1, true).unwrap();
    pdu.switch_load(2, true).unwrap();
    // Load 3 stays off: it contributes nothing to the shed power.
    let shed = pdu.shed_non_critical_loads();
    assert_eq!(shed, 1_000_000);
    assert!(!pdu.loads[0].is_on);
    assert!(pdu.loads[1].is_on, "critical load must stay powered");
    assert!(!pdu.loads[2].is_on);
    assert_eq!(pdu.get_total_demand_uw(), 2_000_000);
}

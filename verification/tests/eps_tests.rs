use cubesat_eps::battery::Battery;
use cubesat_eps::enums::{BatteryState, EpsError, SatelliteOperationalMode};
use cubesat_eps::eps::{ModeLoadRoles, EPS};
use cubesat_eps::pdu::{Load, PowerDistributionUnit};
use cubesat_eps::solar_panel::SolarPanel;

// Units: power in microwatts, energy in microwatt-hours, duration in
// thousandths of an hour.

// Load identifiers used by the mode table in these tests.
const CAMERA: u32 = 1;
const PAYLOAD_TX: u32 = 2;
const RECEIVER: u32 = 3;
const TRANSMITTER: u32 = 4;
const HEATER: u32 = 5;

fn roles() -> ModeLoadRoles {
    ModeLoadRoles {
        payload_camera: CAMERA,
        payload_transmitter: PAYLOAD_TX,
        receiver: RECEIVER,
        transmitter: TRANSMITTER,
        heater: HEATER,
    }
}

/// The distribution unit all controller tests start from: one critical
/// receiver and four non-critical loads.
fn standard_pdu() -> PowerDistributionUnit {
    let mut pdu = PowerDistributionUnit::new();
    pdu.add_load(Load::new(CAMERA, 3_000_000, false)).unwrap();
    pdu.add_load(Load::new(PAYLOAD_TX, 1_000_000, false)).unwrap();
    pdu.add_load(Load::new(RECEIVER, 2_000_000, true)).unwrap();
    pdu.add_load(Load::new(TRANSMITTER, 1_500_000, false)).unwrap();
    pdu.add_load(Load::new(HEATER, 6_000_000, false)).unwrap();
    pdu
}

fn load_by_id(eps: &EPS, id: u32) -> Load {
    *eps.pdu.loads.iter().find(|l| l.id == id).unwrap()
}

#[test]
fn new_rejects_unknown_role_identifier() {
    let battery = Battery::new(1, 10_000_000, 5_000_000, 3_700, 5_000_000, 5_000_000);
    let mut bad = roles();
    bad.heater = 99;
    let r = EPS::new(Vec::new(), battery, standard_pdu(), bad);
    assert!(matches!(r, Err(EpsError::NotFound)));
}

#[test]
fn new_starts_in_nominal_sunlit_mode() {
    let battery = Battery::new(1, 10_000_000, 5_000_000, 3_700, 5_000_000, 5_000_000);
    let eps = EPS::new(Vec::new(), battery, standard_pdu(), roles()).unwrap();
    assert_eq!(eps.current_mode, SatelliteOperationalMode::NominalSunlit);
}

#[test]
fn two_panels_generate_expected_total() {
    // Two 0.02 m2 panels at 0.3 efficiency in sunlit mode (1367 W/m2 at a
    // 0.8 pointing modifier): 6.5616 W each, 13.1232 W together.
    let mut p1 = SolarPanel::new(1, 200, 300);
    let mut p2 = SolarPanel::new(2, 200, 300);
    p1.deploy();
    p2.deploy();
    let battery = Battery::new(1, 10_000_000, 5_000_000, 3_700, 5_000_000, 5_000_000);
    let mut eps = EPS::new(vec![p1, p2], battery, standard_pdu(), roles()).unwrap();
    eps.update_solar_power_generation();
    assert_eq!(eps.solar_panels[0].get_power_output_uw(), 6_561_600);
    assert_eq!(eps.solar_panels[1].get_power_output_uw(), 6_561_600);
    assert_eq!(eps.get_total_generated_power_uw(), 13_123_200);
}

#[test]
fn deficit_fully_covered_by_battery_changes_nothing_else() {
    // Generation ~10.9 W against 15 W of demand: the ~4.1 W deficit lies
    // within the battery's rate limit, so the battery discharges and no
    // shedding or mode change happens.
    let mut p = SolarPanel::new(1, 1_000, 100);
    p.deploy();
    let battery = Battery::new(1, 10_000_000, 5_000_000, 3_700, 5_000_000, 5_000_000);
    let mut pdu = standard_pdu();
    pdu.add_load(Load::new(6, 1_500_000, false)).unwrap();
    for id in [CAMERA, PAYLOAD_TX, RECEIVER, TRANSMITTER, HEATER, 6] {
        pdu.switch_load(id, true).unwrap();
    }
    let mut eps = EPS::new(vec![p], battery, pdu, roles()).unwrap();
    let t = eps.manage_power(1_000);
    assert_eq!(t.generated_uw, 10_936_000);
    assert_eq!(t.demanded_uw, 15_000_000);
    assert_eq!(t.mode, SatelliteOperationalMode::NominalSunlit);
    assert_eq!(t.battery_state, BatteryState::Discharging);
    // No shedding: demand at the end of the tick is unchanged.
    assert_eq!(t.total_demand_uw, 15_000_000);
    assert!(load_by_id(&eps, CAMERA).is_on);
    // 4.064 W for one hour at 0.9 efficiency took 4_515_555 uWh.
    assert_eq!(eps.battery.current_charge_uwh, 5_000_000 - 4_515_555);
}

#[test]
fn eclipse_with_empty_battery_sheds_then_enters_safe_mode() {
    // No generation in eclipse, 8 W of demand, battery already empty: the
    // discharge delivers nothing, shedding drops the non-critical heater,
    // the retry still finds the battery empty, and the satellite falls
    // back to safe mode.
    let battery = Battery::new(1, 10_000_000, 0, 3_700, 5_000_000, 5_000_000);
    let mut eps = EPS::new(Vec::new(), battery, standard_pdu(), roles()).unwrap();
    eps.set_satellite_mode(SatelliteOperationalMode::NominalEclipse);
    // Eclipse baseline: receiver (critical) and heater on, 8 W together.
    assert_eq!(eps.pdu.get_total_demand_uw(), 8_000_000);
    let t = eps.manage_power(1_000);
    assert_eq!(t.generated_uw, 0);
    assert_eq!(t.demanded_uw, 8_000_000);
    assert_eq!(t.battery_state, BatteryState::Empty);
    assert_eq!(t.mode, SatelliteOperationalMode::SafeMode);
    assert_eq!(eps.current_mode, SatelliteOperationalMode::SafeMode);
    // Only the critical receiver is left drawing power.
    assert_eq!(t.total_demand_uw, 2_000_000);
    assert!(load_by_id(&eps, RECEIVER).is_on);
    assert!(!load_by_id(&eps, HEATER).is_on);
    assert!(!load_by_id(&eps, CAMERA).is_on);
}

#[test]
fn payload_mode_turns_payload_loads_on() {
    let battery = Battery::new(1, 10_000_000, 5_000_000, 3_700, 5_000_000, 5_000_000);
    let mut eps = EPS::new(Vec::new(), battery, standard_pdu(), roles()).unwrap();
    eps.set_satellite_mode(SatelliteOperationalMode::PayloadOperation);
    assert!(load_by_id(&eps, CAMERA).is_on);
    assert!(load_by_id(&eps, PAYLOAD_TX).is_on);
    assert!(load_by_id(&eps, RECEIVER).is_on);
    assert!(!load_by_id(&eps, TRANSMITTER).is_on);
}

#[test]
fn safe_mode_after_payload_leaves_only_critical_loads_on() {
    let battery = Battery::new(1, 10_000_000, 5_000_000, 3_700, 5_000_000, 5_000_000);
    let mut eps = EPS::new(Vec::new(), battery, standard_pdu(), roles()).unwrap();
    eps.set_satellite_mode(SatelliteOperationalMode::PayloadOperation);
    eps.set_satellite_mode(SatelliteOperationalMode::SafeMode);
    for l in eps.pdu.loads.iter() {
        assert_eq!(l.is_on, l.is_critical);
    }
}

#[test]
fn nominal_mode_switches_receiver_and_heater_on_transmitter_off() {
    let battery = Battery::new(1, 10_000_000, 5_000_000, 3_700, 5_000_000, 5_000_000);
    let mut eps = EPS::new(Vec::new(), battery, standard_pdu(), roles()).unwrap();
    eps.pdu.switch_load(TRANSMITTER, true).unwrap();
    eps.set_satellite_mode(SatelliteOperationalMode::NominalEclipse);
    assert!(load_by_id(&eps, RECEIVER).is_on);
    assert!(load_by_id(&eps, HEATER).is_on);
    assert!(!load_by_id(&eps, TRANSMITTER).is_on);
    assert!(!load_by_id(&eps, CAMERA).is_on);
}

#[test]
fn set_mode_to_current_mode_is_a_no_op() {
    let battery = Battery::new(1, 10_000_000, 5_000_000, 3_700, 5_000_000, 5_000_000);
    let mut eps = EPS::new(Vec::new(), battery, standard_pdu(), roles()).unwrap();
    eps.pdu.switch_load(CAMERA, true).unwrap();
    eps.set_satellite_mode(SatelliteOperationalMode::NominalSunlit);
    // Still the same mode, and the camera was not forced off.
    assert_eq!(eps.current_mode, SatelliteOperationalMode::NominalSunlit);
    assert!(load_by_id(&eps, CAMERA).is_on);
}

#[test]
fn surplus_charges_battery_within_rate_limit() {
    // ~32.8 W of generation against no demand: the battery charges at its
    // 5 W limit and stores 4.5 Wh over the hour.
    let mut p = SolarPanel::new(1, 1_000, 300);
    p.deploy();
    let battery = Battery::new(1, 10_000_000, 0, 3_700, 5_000_000, 5_000_000);
    let mut eps = EPS::new(vec![p], battery, standard_pdu(), roles()).unwrap();
    let t = eps.manage_power(1_000);
    assert_eq!(t.generated_uw, 32_808_000);
    assert_eq!(t.demanded_uw, 0);
    assert_eq!(t.battery_state, BatteryState::Charging);
    assert_eq!(eps.battery.current_charge_uwh, 4_500_000);
    assert_eq!(t.battery_soc_pct, 45);
}

#[test]
fn balanced_tick_settles_battery_to_idle() {
    // First a deficit tick leaves the battery discharging; then, with no
    // generation and no demand, the balanced tick settles it to idle
    // without moving any energy.
    let battery = Battery::new(1, 10_000_000, 5_000_000, 3_700, 5_000_000, 5_000_000);
    let mut eps = EPS::new(Vec::new(), battery, standard_pdu(), roles()).unwrap();
    eps.pdu.switch_load(RECEIVER, true).unwrap();
    eps.manage_power(1_000);
    assert_eq!(eps.battery.state, BatteryState::Discharging);
    let stored = eps.battery.current_charge_uwh;
    eps.pdu.switch_load(RECEIVER, false).unwrap();
    let t = eps.manage_power(1_000);
    assert_eq!(t.battery_state, BatteryState::Idle);
    assert_eq!(eps.battery.current_charge_uwh, stored);
}

use cubesat_eps::solar_panel::SolarPanel;

// Units: area in square centimetres, efficiency / angle / degradation in
// per-mille, intensity in watts per square metre, output in microwatts.

#[test]
fn stowed_panel_produces_nothing() {
    let mut p = SolarPanel::new(1, 200, 300);
    p.update_power_output(1_367, 800);
    assert_eq!(p.get_power_output_uw(), 0);
    assert!(!p.is_deployed);
}

#[test]
fn deployed_panel_output_follows_illumination() {
    // 0.02 m2 at 0.3 efficiency under the LEO average flux with a 0.8
    // pointing modifier: 0.02 x 0.3 x 1367 x 0.8 = 6.5616 W.
    let mut p = SolarPanel::new(1, 200, 300);
    p.deploy();
    p.update_power_output(1_367, 800);
    assert_eq!(p.get_power_output_uw(), 6_561_600);
}

#[test]
fn eclipse_zeroes_output() {
    let mut p = SolarPanel::new(1, 200, 300);
    p.deploy();
    p.update_power_output(1_367, 800);
    p.update_power_output(0, 0);
    assert_eq!(p.get_power_output_uw(), 0);
}

#[test]
fn deploy_is_idempotent() {
    let mut p = SolarPanel::new(1, 200, 300);
    p.deploy();
    p.deploy();
    assert!(p.is_deployed);
}

#[test]
fn degradation_scales_output_and_saturates() {
    let mut p = SolarPanel::new(1, 200, 300);
    p.deploy();
    p.apply_degradation(250);
    assert_eq!(p.degradation_pm, 750);
    p.update_power_output(1_367, 800);
    // Three quarters of the pristine 6.5616 W.
    assert_eq!(p.get_power_output_uw(), 4_921_200);
    p.apply_degradation(800);
    assert_eq!(p.degradation_pm, 0);
    p.update_power_output(1_367, 800);
    assert_eq!(p.get_power_output_uw(), 0);
}

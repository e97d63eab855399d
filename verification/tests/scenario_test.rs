use ppe::{Scenario, ScenarioKind};

const SEC: u64 = 1_000_000;

#[test]
fn scenario_city_drive_steps() {
    let mut scenario = Scenario::new(ScenarioKind::CityDrive);

    let (t, b) = scenario.update(0);
    assert_eq!(t as f64 / 1000.0, 0.4);
    assert_eq!(b as f64 / 1000.0, 0.0);

    let (t, b) = scenario.update(12 * SEC);
    assert_eq!(t as f64 / 1000.0, 0.0);
    assert_eq!(b as f64 / 1000.0, 0.3);
}

#[test]
fn scenario_kind_display() {
    assert_eq!(ScenarioKind::HighwayCruise.label(), "highway-cruise");
    assert_eq!(
        ScenarioKind::parse("highway-cruise"),
        Some(ScenarioKind::HighwayCruise)
    );
}

#[test]
fn every_scenario_name_round_trips() {
    let all = ScenarioKind::all();
    assert_eq!(all.len(), 7);
    for k in all {
        assert_eq!(ScenarioKind::parse(k.label()), Some(k));
    }
    assert_eq!(ScenarioKind::parse("Idle"), None);
    assert_eq!(ScenarioKind::parse(""), None);
}

#[test]
fn scenario_jumps_to_latest_due_step_and_holds_last() {
    let mut s = Scenario::new(ScenarioKind::ThermalStress);
    assert_eq!(s.update(36 * SEC), (1000, 0));
    assert_eq!(s.update(65 * SEC - 1), (1000, 0));
    assert_eq!(s.update(65 * SEC), (0, 800));
    assert_eq!(s.update(10_000 * SEC), (1000, 0));
    // Time going backwards does not rewind the script
    assert_eq!(s.update(0), (1000, 0));
    assert!(s.is_looping());
    let mut idle = Scenario::new(ScenarioKind::Idle);
    assert_eq!(idle.update(u64::MAX), (0, 0));
}

use ppe::{Gear, VehicleEvent, VehicleFsm, VehicleState};

#[test]
fn startup_sequence() {
    let mut fsm = VehicleFsm::new();
    assert_eq!(fsm.state(), VehicleState::Off);

    fsm.on_event(&VehicleEvent::KeyToAccessory);
    assert_eq!(fsm.state(), VehicleState::Accessory);

    fsm.on_event(&VehicleEvent::KeyToStart);
    assert_eq!(fsm.state(), VehicleState::Ready);
}

#[test]
fn driving_requires_gear_in_drive() {
    let mut fsm = VehicleFsm::new();
    fsm.on_event(&VehicleEvent::KeyToAccessory);
    fsm.on_event(&VehicleEvent::KeyToStart);

    // Throttle in Park should not transition to Driving
    fsm.on_event(&VehicleEvent::ThrottleApplied(500));
    assert_eq!(fsm.state(), VehicleState::Ready);

    // Shift to Drive, then throttle
    fsm.on_event(&VehicleEvent::GearShift(Gear::Drive));
    fsm.on_event(&VehicleEvent::ThrottleApplied(500));
    assert_eq!(fsm.state(), VehicleState::Driving);
}

#[test]
fn emergency_stop_from_any_state() {
    let mut fsm = VehicleFsm::new();
    fsm.on_event(&VehicleEvent::KeyToAccessory);
    fsm.on_event(&VehicleEvent::KeyToStart);
    fsm.on_event(&VehicleEvent::GearShift(Gear::Drive));
    fsm.on_event(&VehicleEvent::ThrottleApplied(1000));
    assert_eq!(fsm.state(), VehicleState::Driving);

    fsm.on_event(&VehicleEvent::EmergencyStop);
    assert_eq!(fsm.state(), VehicleState::SafeState);

    fsm.on_event(&VehicleEvent::EmergencyReset);
    assert_eq!(fsm.state(), VehicleState::Off);
}

#[test]
fn fault_and_recovery() {
    let mut fsm = VehicleFsm::new();
    fsm.on_event(&VehicleEvent::KeyToAccessory);
    fsm.on_event(&VehicleEvent::KeyToStart);

    fsm.on_event(&VehicleEvent::FaultDetected("overtemp".into()));
    assert_eq!(fsm.state(), VehicleState::Fault);

    fsm.on_event(&VehicleEvent::FaultCleared);
    assert_eq!(fsm.state(), VehicleState::Accessory);
}

#[test]
fn charging_flow() {
    let mut fsm = VehicleFsm::new();
    fsm.on_event(&VehicleEvent::KeyToAccessory);
    fsm.on_event(&VehicleEvent::ChargerConnected);
    assert_eq!(fsm.state(), VehicleState::Charging);

    fsm.on_event(&VehicleEvent::ChargingComplete);
    assert_eq!(fsm.state(), VehicleState::Accessory);
}

#[test]
fn emergency_stop_and_fault_reach_every_state() {
    let all_paths: Vec<Vec<VehicleEvent>> = vec![
        vec![],
        vec![VehicleEvent::KeyToAccessory],
        vec![VehicleEvent::KeyToAccessory, VehicleEvent::KeyToStart],
        vec![VehicleEvent::KeyToAccessory, VehicleEvent::ChargerConnected],
        vec![
            VehicleEvent::KeyToAccessory,
            VehicleEvent::KeyToStart,
            VehicleEvent::GearShift(Gear::Reverse),
            VehicleEvent::ThrottleApplied(200),
        ],
    ];
    for path in all_paths {
        let mut a = VehicleFsm::new();
        let mut b = VehicleFsm::new();
        for e in &path {
            a.on_event(e);
            b.on_event(e);
        }
        assert_eq!(a.on_event(&VehicleEvent::EmergencyStop), VehicleState::SafeState);
        assert_eq!(
            b.on_event(&VehicleEvent::FaultDetected("x".to_string())),
            VehicleState::Fault
        );
    }
}

#[test]
fn driving_gear_changes_and_park_stops() {
    let mut fsm = VehicleFsm::new();
    fsm.on_event(&VehicleEvent::KeyToAccessory);
    fsm.on_event(&VehicleEvent::KeyToStart);
    fsm.on_event(&VehicleEvent::GearShift(Gear::Drive));
    fsm.on_event(&VehicleEvent::ThrottleApplied(300));
    // Releasing the throttle in drive keeps driving
    assert_eq!(fsm.on_event(&VehicleEvent::ThrottleReleased), VehicleState::Driving);
    assert_eq!(fsm.on_event(&VehicleEvent::GearShift(Gear::Neutral)), VehicleState::Driving);
    assert_eq!(fsm.gear(), Gear::Neutral);
    assert_eq!(fsm.on_event(&VehicleEvent::ThrottleReleased), VehicleState::Ready);
    fsm.on_event(&VehicleEvent::GearShift(Gear::Drive));
    fsm.on_event(&VehicleEvent::ThrottleApplied(300));
    assert_eq!(fsm.on_event(&VehicleEvent::GearShift(Gear::Park)), VehicleState::Ready);
    assert_eq!(fsm.gear(), Gear::Park);
    // Brake events change nothing
    assert_eq!(fsm.on_event(&VehicleEvent::BrakeApplied(900)), VehicleState::Ready);
    assert_eq!(fsm.on_event(&VehicleEvent::BrakeReleased), VehicleState::Ready);
    assert_eq!(fsm.state().label(), "READY");
    assert_eq!(fsm.gear().symbol(), "P");
}

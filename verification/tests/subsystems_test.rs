use ppe::can::well_known;
use ppe::subsystems::bms::{bms_faults, bms_frames, BmsFault, BmsLimits};
use ppe::subsystems::motor::{motor_frames, motor_step, MotorFault, MotorInputs};
use ppe::subsystems::thermal::{thermal_frames, CoolantFault, CoolantLevels, CoolingState, FanPolicy};
use ppe::{BmsState, CanFrame, CanId, ComponentId, Dtc, DtcSeverity, MotorState, SubsystemHealth};

fn no_limits() -> BmsLimits {
    BmsLimits {
        cell_over_voltage: false,
        cell_under_voltage: false,
        pack_over_temperature: false,
        pack_under_temperature: false,
    }
}

#[test]
fn bms_over_voltage_is_critical_and_faults() {
    let faults = bms_faults(&BmsLimits { cell_over_voltage: true, ..no_limits() });
    assert_eq!(faults, vec![BmsFault::CellOverVoltage]);
    assert_eq!(faults[0].code(), "P0A80");
    let dtcs = vec![Dtc::new("P0A80", "over", faults[0].severity(), ComponentId::Bms)];
    let s = BmsState::Active.after_fault_check(&dtcs);
    assert_eq!(s, BmsState::Fault);
    assert_eq!(s.health(true), SubsystemHealth::Fault);
}

#[test]
fn bms_warnings_degrade_without_faulting() {
    let faults = bms_faults(&BmsLimits {
        cell_under_voltage: true,
        pack_under_temperature: true,
        ..no_limits()
    });
    assert_eq!(faults, vec![BmsFault::CellUnderVoltage, BmsFault::PackUnderTemperature]);
    assert_eq!(faults[1].code(), "P0A83");
    assert_eq!(faults[1].severity(), DtcSeverity::Warning);
    let dtcs: Vec<Dtc> = faults
        .iter()
        .map(|f| Dtc::new(f.code(), "x", f.severity(), ComponentId::Bms))
        .collect();
    let s = BmsState::Active.after_fault_check(&dtcs);
    assert_eq!(s, BmsState::Active);
    assert_eq!(s.health(!dtcs.is_empty()), SubsystemHealth::Degraded);
    assert_eq!(BmsState::Active.health(false), SubsystemHealth::Nominal);
    let all = bms_faults(&BmsLimits {
        cell_over_voltage: true,
        cell_under_voltage: true,
        pack_over_temperature: true,
        pack_under_temperature: true,
    });
    assert_eq!(all.len(), 4);
    assert_eq!(all[2].code(), "P0A82");
}

#[test]
fn bms_emergency_stop_goes_safe() {
    let stop = CanFrame::new(CanId::new_unchecked(well_known::EMERGENCY_STOP), &[], 0);
    assert_eq!(BmsState::Active.after_frames(&vec![stop]), BmsState::SafeState);
    assert_eq!(BmsState::Active.after_frames(&vec![]), BmsState::Active);
    assert_eq!(BmsState::SafeState.health(false), SubsystemHealth::Fault);
}

#[test]
fn bms_can_message_contains_soc() {
    let frames = bms_frames(8000, 355_200, -12_500, 251);
    assert_eq!(frames.len(), 4);
    let soc_frame = frames.iter().find(|f| f.id.raw() == well_known::BMS_SOC).unwrap();
    let soc_raw = u16::from_le_bytes([soc_frame.payload()[0], soc_frame.payload()[1]]);
    assert_eq!(soc_raw as f64 / 100.0, 80.0);
    assert_eq!(frames[1].payload(), &355_200i32.to_le_bytes());
    assert_eq!(frames[2].payload(), &(-12_500i32).to_le_bytes());
    assert_eq!(frames[3].id.raw(), well_known::BMS_TEMPERATURE);
}

fn inputs() -> MotorInputs {
    MotorInputs {
        emergency_stop: false,
        throttle_applied: false,
        throttle_released: true,
        stopped: true,
        over_max_temperature: false,
        over_derate_temperature: false,
    }
}

#[test]
fn motor_init_and_state_transitions() {
    // Apply throttle -> Running
    let (s, f) = motor_step(
        MotorState::Ready,
        &MotorInputs { throttle_applied: true, throttle_released: false, ..inputs() },
    );
    assert_eq!(s, MotorState::Running);
    assert_eq!(f, None);
    // Overheat -> Derating
    let (s, f) = motor_step(
        s,
        &MotorInputs {
            throttle_applied: true,
            throttle_released: false,
            over_derate_temperature: true,
            ..inputs()
        },
    );
    assert_eq!(s, MotorState::Derating);
    assert_eq!(f.unwrap().code(), "P0A79");
    assert_eq!(s.health(), SubsystemHealth::Degraded);
    // Cooling back down resumes running
    let (s, _) = motor_step(s, &MotorInputs { stopped: false, ..inputs() });
    assert_eq!(s, MotorState::Running);
    // Released and stopped -> Ready
    let (s, _) = motor_step(s, &inputs());
    assert_eq!(s, MotorState::Ready);
}

#[test]
fn motor_over_temperature_fault() {
    let (s, f) = motor_step(
        MotorState::Ready,
        &MotorInputs { over_max_temperature: true, over_derate_temperature: true, ..inputs() },
    );
    assert_eq!(s, MotorState::Fault);
    assert_eq!(f, Some(MotorFault::OverTemperature));
    assert_eq!(f.unwrap().severity(), DtcSeverity::Critical);
    assert_eq!(s.health(), SubsystemHealth::Fault);
    let (s, _) = motor_step(MotorState::Running, &MotorInputs { emergency_stop: true, ..inputs() });
    assert_eq!(s, MotorState::Fault);
}

#[test]
fn motor_frames_layout() {
    let frames = motor_frames(3000, 12_345, 853, MotorState::Derating);
    assert_eq!(frames.len(), 4);
    assert_eq!(frames[0].payload(), &3000i32.to_le_bytes());
    assert_eq!(frames[3].id.raw(), well_known::MOTOR_STATUS);
    assert_eq!(frames[3].payload(), &[5]);
}

fn levels(at_fault: bool, at_emergency: bool, at_high: bool, at_low: bool) -> CoolantLevels {
    CoolantLevels { at_fault, at_emergency, at_high, at_low }
}

#[test]
fn thermal_cooling_stages() {
    // Cold - no cooling
    let s = CoolingState::for_levels(&levels(false, false, false, false));
    assert_eq!(s, CoolingState::Off);
    assert_eq!(s.fan_policy(), FanPolicy::Stopped);
    // Warm - low speed
    let s = CoolingState::for_levels(&levels(false, false, false, true));
    assert_eq!(s, CoolingState::LowSpeed);
    // Hot - high speed
    let s = CoolingState::for_levels(&levels(false, false, true, true));
    assert_eq!(s, CoolingState::HighSpeed);
    assert_eq!(s.fan_policy(), FanPolicy::HighRange);
    // Critical - emergency
    let s = CoolingState::for_levels(&levels(false, true, true, true));
    assert_eq!(s, CoolingState::Emergency);
    assert_eq!(s.fault(), Some(CoolantFault::High));
    // Over fault threshold
    let s = CoolingState::for_levels(&levels(true, true, true, true));
    assert_eq!(s, CoolingState::Fault);
    assert_eq!(s.health(), SubsystemHealth::Fault);
    assert_eq!(s.fault().unwrap().code(), "P0217");
    assert_eq!(s.fan_policy(), FanPolicy::Full);
    assert_eq!(s.label(), "FAULT");
}

#[test]
fn thermal_frames_layout() {
    let stop = CanFrame::new(CanId::new_unchecked(well_known::EMERGENCY_STOP), &[], 0);
    assert_eq!(CoolingState::Off.after_frames(&vec![stop]), CoolingState::Emergency);
    let frames = thermal_frames(-55, 10_000, CoolingState::HighSpeed);
    assert_eq!(frames.len(), 3);
    assert_eq!(frames[0].payload(), &(-55i16).to_le_bytes());
    assert_eq!(frames[1].payload(), &10_000u16.to_le_bytes());
    assert_eq!(frames[2].payload(), &[2]);
}

#[test]
fn bms_detects_over_voltage() {
    // 4.3 V per cell is above the 4.2 V maximum
    let faults = bms_faults(&BmsLimits { cell_over_voltage: true, ..no_limits() });
    let dtcs: Vec<Dtc> = faults
        .iter()
        .map(|f| Dtc::new(f.code(), "Cell over-voltage", f.severity(), ComponentId::Bms))
        .collect();
    assert!(!dtcs.is_empty(), "Should detect over-voltage");
    assert!(dtcs.iter().any(|d| d.code == "P0A80"));
    let state = BmsState::Active.after_fault_check(&dtcs);
    assert_eq!(state.health(!dtcs.is_empty()), SubsystemHealth::Fault);
}

#[test]
fn bms_detects_over_temperature() {
    // 50 °C is above the 45 °C maximum
    let faults = bms_faults(&BmsLimits { pack_over_temperature: true, ..no_limits() });
    let dtcs: Vec<Dtc> = faults
        .iter()
        .map(|f| Dtc::new(f.code(), "Pack over-temperature", f.severity(), ComponentId::Bms))
        .collect();
    assert!(dtcs.iter().any(|d| d.code == "P0A82"));
}

#[test]
fn safe_pack_and_faulted_motor_ignore_ticks() {
    assert!(!BmsState::SafeState.runs_tick());
    assert!(BmsState::Fault.runs_tick());
    assert!(!MotorState::Fault.runs_tick());
    assert!(MotorState::Derating.runs_tick());
}

use ppe::can::well_known;
use ppe::subsystems::enerd::{
    enerd_frames, enerd_warnings, EnerDControl, EnerDNotice, EnerDReadings, EnerDWarning,
    EnerDWarningLevels, StableTimer, TickMode,
};
use ppe::{CanFrame, CanId, DtcSeverity, EnerDState, SubsystemHealth};

fn quiet() -> EnerDReadings {
    EnerDReadings {
        above_activation_speed: false,
        below_stall_speed: false,
        spin_at_sustain: false,
        power_covers_parasitic: false,
        spinup_timed_out: false,
        spin_above_overdrive: false,
        spin_at_or_below_overdrive: true,
        power_positive: false,
        spin_below_half_sustain: false,
        containment_below_critical: false,
        plasma_above_critical: false,
        power_above_max_safe: false,
        recovery_window: false,
        recovery_time_reached: false,
        containment_below_meltdown: false,
        plasma_above_meltdown: false,
        critical_time_exceeded: false,
    }
}

fn drive_to(c: &mut EnerDControl, target: EnerDState) {
    let steps = [
        (EnerDState::SpinUp, EnerDReadings { above_activation_speed: true, ..quiet() }),
        (
            EnerDState::Sustaining,
            EnerDReadings { spin_at_sustain: true, power_covers_parasitic: true, ..quiet() },
        ),
        (
            EnerDState::Overdrive,
            EnerDReadings {
                spin_above_overdrive: true,
                spin_at_or_below_overdrive: false,
                power_positive: true,
                ..quiet()
            },
        ),
        (
            EnerDState::Critical,
            EnerDReadings {
                containment_below_critical: true,
                spin_at_or_below_overdrive: false,
                spin_above_overdrive: true,
                ..quiet()
            },
        ),
        (EnerDState::Meltdown, EnerDReadings { containment_below_meltdown: true, ..quiet() }),
    ];
    for (state, r) in steps.iter() {
        if c.state() == target {
            return;
        }
        assert_eq!(c.begin_tick(), TickMode::Active);
        c.transition(r);
        assert_eq!(c.state(), *state);
    }
}

#[test]
fn reactor_starts_dormant() {
    let c = EnerDControl::new();
    assert_eq!(c.state(), EnerDState::Dormant);
    assert!(!c.enabled());
    assert!(!c.scram_requested());
}

#[test]
fn reactor_spins_up_with_speed() {
    let mut c = EnerDControl::new();
    c.set_enabled(true);
    let t = c.transition(&EnerDReadings { above_activation_speed: true, ..quiet() });
    assert_eq!(c.state(), EnerDState::SpinUp);
    assert!(t.reset_state_time);
    assert_eq!(t.notices, vec![EnerDNotice::SpinUpStarted]);
    let d = t.notices[0].to_dtc();
    assert_eq!(d.code, "P0ED0");
    assert_eq!(d.severity, DtcSeverity::Info);
    let t = c.transition(&EnerDReadings {
        spin_at_sustain: true,
        power_covers_parasitic: true,
        ..quiet()
    });
    assert_eq!(c.state(), EnerDState::Sustaining);
    assert_eq!(t.notices, vec![EnerDNotice::Sustaining]);
}

#[test]
fn reactor_stays_dormant_when_disabled() {
    let mut c = EnerDControl::new();
    assert_eq!(c.begin_tick(), TickMode::Idle);
    let t = c.transition(&EnerDReadings { above_activation_speed: true, ..quiet() });
    assert_eq!(c.state(), EnerDState::Dormant);
    assert!(t.notices.is_empty());
}

#[test]
fn reactor_scram() {
    let mut c = EnerDControl::new();
    c.set_enabled(true);
    drive_to(&mut c, EnerDState::Sustaining);
    c.request_scram();
    let t = c.transition(&quiet());
    assert_eq!(c.state(), EnerDState::Dormant);
    assert!(t.reset_core);
    assert!(t.reset_state_time);
    assert_eq!(t.stable_timer, StableTimer::Keep);
    assert_eq!(t.notices[0].to_dtc().code, "P0EDA");
    assert!(!c.scram_requested());
}

#[test]
fn spinup_timeout_at_low_speed() {
    let mut c = EnerDControl::new();
    c.set_enabled(true);
    drive_to(&mut c, EnerDState::SpinUp);
    let t = c.transition(&EnerDReadings { spinup_timed_out: true, ..quiet() });
    assert_eq!(c.state(), EnerDState::Dormant);
    assert_eq!(t.notices, vec![EnerDNotice::SpinUpTimeout]);
    assert_eq!(t.notices[0].to_dtc().code, "P0ED6");
    // Stalling drops back quietly, even when timed out too
    drive_to(&mut c, EnerDState::SpinUp);
    let t = c.transition(&EnerDReadings {
        below_stall_speed: true,
        spinup_timed_out: true,
        ..quiet()
    });
    assert_eq!(c.state(), EnerDState::Dormant);
    assert!(t.notices.is_empty());
}

#[test]
fn overdrive_entry_and_exit() {
    let mut c = EnerDControl::new();
    c.set_enabled(true);
    drive_to(&mut c, EnerDState::Overdrive);
    let t = c.transition(&quiet());
    assert_eq!(c.state(), EnerDState::Sustaining);
    assert!(t.reset_state_time);
    c.transition(&EnerDReadings { spin_below_half_sustain: true, ..quiet() });
    assert_eq!(c.state(), EnerDState::Dormant);
}

#[test]
fn critical_state_and_recovery() {
    let mut c = EnerDControl::new();
    c.set_enabled(true);
    drive_to(&mut c, EnerDState::Critical);
    assert_eq!(c.health(false), SubsystemHealth::Fault);
    let t = c.transition(&EnerDReadings { recovery_window: true, ..quiet() });
    assert_eq!(c.state(), EnerDState::Critical);
    assert_eq!(t.stable_timer, StableTimer::Accumulate);
    let t = c.transition(&quiet());
    assert_eq!(t.stable_timer, StableTimer::Clear);
    let t = c.transition(&EnerDReadings {
        recovery_window: true,
        recovery_time_reached: true,
        critical_time_exceeded: true,
        ..quiet()
    });
    assert_eq!(c.state(), EnerDState::Sustaining);
    assert_eq!(t.notices, vec![EnerDNotice::Recovered]);
    assert_eq!(t.stable_timer, StableTimer::Clear);
}

#[test]
fn recovery_and_meltdown_in_one_tick() {
    let mut c = EnerDControl::new();
    c.set_enabled(true);
    drive_to(&mut c, EnerDState::Critical);
    let t = c.transition(&EnerDReadings {
        recovery_window: true,
        recovery_time_reached: true,
        plasma_above_meltdown: true,
        ..quiet()
    });
    assert_eq!(c.state(), EnerDState::Meltdown);
    assert_eq!(t.notices, vec![EnerDNotice::Recovered, EnerDNotice::Meltdown]);
}

#[test]
fn meltdown_is_terminal() {
    let mut c = EnerDControl::new();
    c.set_enabled(true);
    drive_to(&mut c, EnerDState::Meltdown);
    assert_eq!(c.state(), EnerDState::Meltdown);
    c.set_enabled(false);
    assert_eq!(c.begin_tick(), TickMode::MeltdownDecay);
    assert_eq!(c.state(), EnerDState::Meltdown, "Disabling should not exit Meltdown");
    c.set_enabled(true);
    assert_eq!(c.begin_tick(), TickMode::MeltdownDecay);
    assert_eq!(c.state(), EnerDState::Meltdown, "Re-enabling should not exit Meltdown");
    c.request_scram();
    assert_eq!(c.begin_tick(), TickMode::MeltdownDecay);
    assert!(!c.scram_requested());
    assert_eq!(c.state(), EnerDState::Meltdown, "SCRAM should not exit Meltdown");
    c.request_scram();
    let t = c.transition(&quiet());
    assert!(t.decay_spin);
    assert!(!t.reset_core);
    assert_eq!(c.state(), EnerDState::Meltdown);
}

#[test]
fn emergency_scram_via_can() {
    let mut c = EnerDControl::new();
    c.set_enabled(true);
    drive_to(&mut c, EnerDState::Critical);
    let stop = CanFrame::new(CanId::new_unchecked(well_known::EMERGENCY_STOP), &[], 0);
    c.observe_frames(&vec![stop]);
    assert!(c.scram_requested());
    let t = c.transition(&quiet());
    assert_eq!(c.state(), EnerDState::Dormant);
    assert!(t.reset_core);
}

#[test]
fn reactor_disabled_preserves_dormant() {
    let mut c = EnerDControl::new();
    for _ in 0..10 {
        assert_eq!(c.begin_tick(), TickMode::Idle);
    }
    assert_eq!(c.state(), EnerDState::Dormant);
    assert_eq!(c.health(true), SubsystemHealth::Degraded);
    assert_eq!(c.health(false), SubsystemHealth::Nominal);
}

#[test]
fn reactor_frames_layout() {
    let frames = enerd_frames(EnerDState::Overdrive, 450_000, 243_000, 9_950, 1_234, -5);
    assert_eq!(frames.len(), 6);
    assert_eq!(frames[0].payload(), &[3]);
    assert_eq!(frames[0].id.raw(), well_known::ENERD_STATUS);
    assert_eq!(frames[3].payload(), &9_950u16.to_le_bytes());
    assert_eq!(frames[5].payload(), &(-5i32).to_le_bytes());
    assert_eq!(EnerDState::Overdrive.label(), "OVERDRIVE");
}

#[test]
fn reactor_warnings_in_check_order() {
    let none = EnerDWarningLevels {
        containment_low: false,
        plasma_elevated: false,
        spin_near_max: false,
        power_near_limit: false,
    };
    assert!(enerd_warnings(&none).is_empty());
    let all = EnerDWarningLevels {
        containment_low: true,
        plasma_elevated: true,
        spin_near_max: true,
        power_near_limit: true,
    };
    let codes: Vec<&str> = enerd_warnings(&all).iter().map(|w| w.code()).collect();
    assert_eq!(codes, vec!["P0ED3", "P0ED4", "P0ED8", "P0ED9"]);
    let some = EnerDWarningLevels {
        plasma_elevated: true,
        power_near_limit: true,
        ..none
    };
    assert_eq!(
        enerd_warnings(&some),
        vec![EnerDWarning::PlasmaElevated, EnerDWarning::PowerNearLimit]
    );
}

#[test]
fn reactor_warnings_are_warning_severity_codes() {
    let d = EnerDWarning::SpinNearMax.to_dtc("Spin rate near max: 750.0 rad/s");
    assert_eq!(d.code, "P0ED8");
    assert_eq!(d.description, "Spin rate near max: 750.0 rad/s");
    assert_eq!(d.severity, DtcSeverity::Warning);
    assert_eq!(d.source, ppe::ComponentId::EnerD);
    assert_eq!(EnerDWarning::ContainmentLow.severity(), DtcSeverity::Warning);
}

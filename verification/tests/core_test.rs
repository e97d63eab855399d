use std::time::Duration;

use ppe::{ComponentId, Dtc, DtcSeverity, SimClock};

#[test]
fn clock_advance() {
    let clock = SimClock::new();
    assert_eq!(clock.elapsed(), Duration::ZERO);

    clock.advance(Duration::from_millis(10));
    assert_eq!(clock.elapsed(), Duration::from_millis(10));

    clock.advance(Duration::from_millis(5));
    assert_eq!(clock.elapsed(), Duration::from_millis(15));
}

#[test]
fn clock_reset() {
    let clock = SimClock::new();
    clock.advance(Duration::from_secs(1));
    clock.reset();
    assert_eq!(clock.elapsed(), Duration::ZERO);
}

#[test]
fn clock_clone_shares_state() {
    let clock1 = SimClock::new();
    let clock2 = clock1.clone();
    clock1.advance(Duration::from_millis(100));
    assert_eq!(clock2.elapsed(), Duration::from_millis(100));
}

#[test]
fn dtc_display() {
    let dtc = Dtc::new(
        "P0A80",
        "Battery pack over-temperature",
        DtcSeverity::Critical,
        ComponentId::Bms,
    );
    assert!(dtc.to_display_string().contains("P0A80"));
    assert!(dtc.to_display_string().contains("CRIT"));
}

#[test]
fn dtc_display_full_text() {
    let dtc = Dtc::new("P0ED4", "Plasma hot", DtcSeverity::Warning, ComponentId::EnerD);
    assert_eq!(dtc.to_display_string(), "[WARN] P0ED4 - Plasma hot (ENER-D)");
    assert_eq!(dtc.clone(), dtc);
}

#[test]
fn labels() {
    assert_eq!(ComponentId::Diagnostics.label(), "DIAGNOSTICS");
    assert_eq!(DtcSeverity::Fault.label(), "FAULT");
    assert_eq!(DtcSeverity::Info.label(), "INFO");
}

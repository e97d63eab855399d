use std::time::Duration;

use ppe::{EdfTable, Watchdog};

#[test]
fn edf_runs_earliest_deadline_first() {
    let mut t = EdfTable::new();
    assert_eq!(t.earliest(), None);
    let bms = t.add(10_000, 0);
    let thermal = t.add(100_000, 0);
    let motor = t.add(10_000, 0);
    t.start(1_000);
    assert_eq!(t.deadline(bms), 11_000);
    assert_eq!(t.deadline(thermal), 101_000);
    // Ties go to the first task
    assert_eq!(t.earliest(), Some(bms));
    assert!(!t.complete(bms, 11_000));
    assert_eq!(t.earliest(), Some(motor));
    assert!(!t.complete(motor, 11_500));
    assert_eq!(t.deadline(motor), 21_500);
    assert_eq!(t.tick_count(), 2);
    assert_eq!(t.period(thermal), 100_000);
}

#[test]
fn edf_counts_deadline_misses() {
    let mut t = EdfTable::new();
    let a = t.add(10, 0);
    t.start(0);
    // Due at 10; running later than 10 + 10 is a miss
    assert!(!t.complete(a, 20));
    assert_eq!(t.deadline_misses(a), 0);
    assert!(t.complete(a, 41));
    assert_eq!(t.deadline_misses(a), 1);
    assert_eq!(t.deadline(a), 51);
    assert_eq!(t.len(), 1);
}

#[test]
fn watchdog_starts_untriggered_and_resets() {
    let mut wd = Watchdog::new("test", Duration::from_secs(3600).as_nanos());
    assert!(!wd.is_triggered());
    assert!(!wd.check());
    wd.kick_handle().kick();
    wd.kick();
    wd.reset();
    assert!(!wd.is_triggered());
}

#[test]
fn watchdog_with_zero_timeout_fires_once() {
    let mut wd = Watchdog::new("zero", Duration::ZERO.as_nanos());
    // Any elapsed millisecond exceeds a zero timeout; spin until one passes.
    let mut fired = false;
    for _ in 0..10_000_000 {
        if wd.check() {
            fired = true;
            break;
        }
    }
    assert!(fired);
    assert!(wd.is_triggered());
    assert!(!wd.check());
    wd.reset();
    assert!(!wd.is_triggered());
}

#[test]
fn watchdog_decides_on_given_clock_readings() {
    let mut w = Watchdog::new("tick", Duration::from_millis(100).as_nanos());
    // 100 ms after the kick is not beyond a 100 ms timeout
    assert!(!w.check_at(1_100, 1_000));
    // A kick later than the clock reading counts as no time passed
    assert!(!w.check_at(1_000, 5_000));
    assert!(w.check_at(1_101, 1_000));
    assert!(w.is_triggered());
    // It fires only once
    assert!(!w.check_at(9_999, 1_000));
    w.reset();
    assert!(!w.is_triggered());
    assert!(w.check_at(u64::MAX, 0));
}

fn wait(d: Duration) {
    let start = std::time::Instant::now();
    while start.elapsed() < d {}
}

#[test]
fn watchdog_no_timeout_when_kicked() {
    let mut wd = Watchdog::new("test", Duration::from_millis(100).as_nanos());
    wd.kick();
    wait(Duration::from_millis(50));
    assert!(!wd.check());
}

#[test]
fn watchdog_triggers_on_timeout() {
    let mut wd = Watchdog::new("test", Duration::from_millis(50).as_nanos());
    wait(Duration::from_millis(100));
    assert!(wd.check());
    assert!(wd.is_triggered());
}

#[test]
fn watchdog_reset() {
    let mut wd = Watchdog::new("test", Duration::from_millis(50).as_nanos());
    wait(Duration::from_millis(100));
    wd.check();
    assert!(wd.is_triggered());
    wd.reset();
    assert!(!wd.is_triggered());
}

use blinklink::scheduler::{elapsed_cycles, Scheduler, DEFAULT_RATE, REFERENCE_UNIT};

#[test]
fn boot_interval_is_default_rate_times_reference_unit() {
    let scheduler = Scheduler::new(5);
    assert_eq!(scheduler.interval, DEFAULT_RATE as u32 * REFERENCE_UNIT);
    assert_eq!(scheduler.interval, 100_000_000);
    assert_eq!(scheduler.last_toggle, 5);
}

#[test]
fn set_interval_is_rate_times_reference_unit() {
    let mut scheduler = Scheduler::new(0);
    scheduler.set_interval(150);
    assert_eq!(scheduler.interval, 150_000_000);
    scheduler.set_interval(255);
    assert_eq!(scheduler.interval, 255_000_000);
    scheduler.set_interval(0);
    assert_eq!(scheduler.interval, 0);
}

#[test]
fn tick_toggles_exactly_when_interval_elapsed() {
    let mut scheduler = Scheduler::new(1000);
    scheduler.set_interval(2);
    assert!(!scheduler.tick(1000 + 2 * REFERENCE_UNIT - 1));
    assert_eq!(scheduler.last_toggle, 1000);
    assert!(scheduler.tick(1000 + 2 * REFERENCE_UNIT));
    assert_eq!(scheduler.last_toggle, 1000 + 2 * REFERENCE_UNIT);
}

#[test]
fn rate_zero_toggles_on_every_tick() {
    let mut scheduler = Scheduler::new(9);
    scheduler.set_interval(0);
    assert!(scheduler.tick(9));
    assert!(scheduler.tick(10));
    assert!(scheduler.tick(10));
}

#[test]
fn elapsed_is_exact_without_wraparound() {
    assert_eq!(elapsed_cycles(70, 30), 40);
    assert_eq!(elapsed_cycles(7, 7), 0);
}

#[test]
fn elapsed_is_exact_across_wraparound() {
    assert_eq!(elapsed_cycles(5, u32::MAX - 10), 16);
    assert_eq!(elapsed_cycles(0, u32::MAX), 1);
    assert_eq!(elapsed_cycles(u32::MAX, 0), u32::MAX);
}

#[test]
fn tick_toggles_across_counter_wraparound() {
    let mut scheduler = Scheduler::new(u32::MAX - 10);
    scheduler.set_interval(1);
    // 11 ticks to the wrap, then REFERENCE_UNIT - 11 more past zero.
    assert!(!scheduler.tick(REFERENCE_UNIT - 12));
    assert!(scheduler.tick(REFERENCE_UNIT - 11));
    assert_eq!(scheduler.last_toggle, REFERENCE_UNIT - 11);
}

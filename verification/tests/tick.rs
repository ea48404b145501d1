use segment_display::tick::{AlarmState, SharedCounter};

#[test]
fn new_counter_starts_idle() {
    let counter = SharedCounter::new(999, 1_000_000);
    assert_eq!(counter.count, 999);
    assert_eq!(counter.alarm, AlarmState::Idle);
    assert_eq!(counter.period_us, 1_000_000);
}

#[test]
fn arm_returns_period_and_keeps_count() {
    let mut counter = SharedCounter::new(999, 1_000_000);
    let period = counter.arm();
    assert_eq!(period, 1_000_000);
    assert_eq!(counter.alarm, AlarmState::Armed);
    assert_eq!(counter.count, 999);
}

#[test]
fn ticks_accumulate_without_intervening_read() {
    let mut counter = SharedCounter::new(999, 1_000_000);
    counter.arm();
    for _ in 0..5 {
        let period = counter.on_alarm();
        assert_eq!(period, 1_000_000);
    }
    assert_eq!(counter.read(), 1004);
}

#[test]
fn zero_ticks_leave_counter_unchanged() {
    let mut counter = SharedCounter::new(42, 1_000_000);
    counter.arm();
    assert_eq!(counter.read(), 42);
}

#[test]
fn interleaved_reads_observe_whole_increments() {
    // A deterministic interleaving of handler firings and foreground
    // reads: every read sees exactly the ticks committed so far, never a
    // partial increment, and reading loses no tick.
    let mut counter = SharedCounter::new(0, 250_000);
    counter.arm();
    let mut expected: i32 = 0;
    for round in 0..100 {
        for _ in 0..(round % 3) {
            counter.on_alarm();
            expected += 1;
        }
        assert_eq!(counter.read(), expected);
        assert_eq!(counter.read(), expected);
    }
}

#[test]
fn reads_do_not_reset_the_counter() {
    let mut counter = SharedCounter::new(7, 1_000_000);
    counter.arm();
    counter.on_alarm();
    assert_eq!(counter.read(), 8);
    counter.on_alarm();
    assert_eq!(counter.read(), 9);
}

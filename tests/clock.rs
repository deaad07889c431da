use std::cell::Cell;

use ciem::clock::{jittered_reading, ClockSource, SecureClock};

struct ScriptedClock {
    readings: Vec<u64>,
    next: Cell<usize>,
}

impl ScriptedClock {
    fn new(readings: Vec<u64>) -> Self {
        ScriptedClock { readings, next: Cell::new(0) }
    }
}

impl ClockSource for ScriptedClock {
    fn now(&self) -> u64 {
        let i = self.next.get();
        self.next.set(i + 1);
        self.readings[i % self.readings.len()]
    }

    fn name(&self) -> &'static str {
        "ScriptedClock"
    }
}

fn ticks_of(readings: Vec<u64>, n: usize) -> Vec<u64> {
    let mut clock = SecureClock::new(ScriptedClock::new(readings));
    (0..n).map(|_| clock.tick()).collect()
}

#[test]
fn ticks_count_with_rising_hardware() {
    assert_eq!(ticks_of(vec![10, 20, 30, 40, 50], 5), vec![1, 2, 3, 4, 5]);
}

#[test]
fn ticks_count_with_flat_hardware() {
    assert_eq!(ticks_of(vec![7], 6), vec![1, 2, 3, 4, 5, 6]);
}

#[test]
fn ticks_count_with_regressing_hardware() {
    assert_eq!(ticks_of(vec![100, 50, 0, 99, 1], 5), vec![1, 2, 3, 4, 5]);
}

#[test]
fn observe_counts_whatever_the_reading() {
    let mut clock = SecureClock::new(ScriptedClock::new(vec![0]));
    assert_eq!(clock.observe(u64::MAX), 1);
    assert_eq!(clock.observe(0), 2);
    assert_eq!(clock.observe(5), 3);
}

#[test]
fn clock_reports_source_name() {
    let clock = SecureClock::new(ScriptedClock::new(vec![1]));
    assert_eq!(clock.source_name(), "ScriptedClock");
}

#[test]
fn jitter_adds_remainder() {
    assert_eq!(jittered_reading(0), 0);
    assert_eq!(jittered_reading(1234), 1268);
    assert_eq!(jittered_reading(u64::MAX), (u64::MAX % 100) - 1);
}

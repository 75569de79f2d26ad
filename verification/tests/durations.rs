use ticktime::ClockTick;
use ticktime::Duration;

#[derive(Debug)]
struct Clock32k;

impl ClockTick for Clock32k {
    fn rate() -> u64 {
        32768
    }

    fn ticks() -> u64 {
        0
    }

    fn ticks_per_second() -> u64 {
        32768
    }
}

#[derive(Debug)]
struct MicrosClock;

impl ClockTick for MicrosClock {
    fn rate() -> u64 {
        1_000_000
    }

    fn ticks() -> u64 {
        0
    }

    fn ticks_per_second() -> u64 {
        1_000_000
    }
}

#[test]
fn unit_constructors_use_the_clock_rate() {
    assert_eq!(Duration::<Clock32k>::from_millis(1000), Duration::<Clock32k>::from_ticks(32768));
    assert_eq!(Duration::<Clock32k>::from_secs(2).to_ticks(), 65536);
    assert_eq!(Duration::<Clock32k>::from_ticks(32768).to_millis(), 1000);
    assert_eq!(Duration::<Clock32k>::from_ticks(16384).to_millis(), 500);
}

#[test]
fn micros_are_exact_at_matching_rate() {
    assert_eq!(Duration::<MicrosClock>::from_micros(0).to_ticks(), 0);
    assert_eq!(Duration::<MicrosClock>::from_micros(1).to_ticks(), 1);
    assert_eq!(Duration::<MicrosClock>::from_micros(123_456_789).to_ticks(), 123_456_789);
    assert_eq!(Duration::<MicrosClock>::from_micros(u64::MAX).to_ticks(), u64::MAX);
}

#[test]
fn adding_zero_changes_nothing() {
    let d = Duration::<Clock32k>::from_ticks(12345);
    assert_eq!(d + Duration::from_ticks(0), d);
}

#[test]
fn checked_sub_underflow_is_absence() {
    let five = Duration::<Clock32k>::from_ticks(5);
    let ten = Duration::<Clock32k>::from_ticks(10);
    assert!(five.checked_sub(ten).is_none());
    assert_eq!(ten.checked_sub(five), Some(five));
}

#[test]
fn checked_add_overflow_is_absence() {
    let max = Duration::<Clock32k>::from_ticks(u64::MAX);
    let one = Duration::<Clock32k>::from_ticks(1);
    assert!(max.checked_add(one).is_none());
    assert_eq!(one.checked_add(one), Some(Duration::from_ticks(2)));
}

#[test]
fn checked_mul_and_div() {
    let d = Duration::<Clock32k>::from_ticks(30);
    assert_eq!(d.checked_mul(3), Some(Duration::from_ticks(90)));
    assert!(Duration::<Clock32k>::from_ticks(u64::MAX).checked_mul(2).is_none());
    assert_eq!(d.checked_div(4), Some(Duration::from_ticks(7)));
    assert!(d.checked_div(0).is_none());
}

#[test]
fn arithmetic_operators() {
    let a = Duration::<Clock32k>::from_ticks(40);
    let b = Duration::<Clock32k>::from_ticks(15);
    assert_eq!(a + b, Duration::from_ticks(55));
    assert_eq!(a - b, Duration::from_ticks(25));
    assert_eq!(a * 3, Duration::from_ticks(120));
    assert_eq!(a / 16, Duration::from_ticks(2));
}

#[test]
fn ordering_follows_tick_counts() {
    let small = Duration::<Clock32k>::from_ticks(3);
    let large = Duration::<Clock32k>::from_ticks(4);
    assert!(small < large);
    assert!(large > small);
    assert!(small <= small);
    assert_ne!(small, large);
    assert_eq!(small, Duration::from_ticks(3));
}

#[test]
fn truncating_extraction() {
    // 33 ticks at 32768 ticks per second is one whole millisecond.
    assert_eq!(Duration::<Clock32k>::from_ticks(33).to_millis(), 1);
    assert_eq!(Duration::<Clock32k>::from_ticks(32767).to_secs(), 0);
    assert_eq!(Duration::<Clock32k>::from_ticks(32768).to_secs(), 1);
}

use ticktime::ClockTick;
use ticktime::Duration;
use ticktime::Instant;

#[derive(Debug)]
struct FrozenClock;

impl ClockTick for FrozenClock {
    fn rate() -> u64 {
        1000
    }

    fn ticks() -> u64 {
        1000
    }

    fn ticks_per_second() -> u64 {
        1000
    }
}

#[test]
fn now_reads_the_clock() {
    assert_eq!(Instant::<FrozenClock>::now().to_ticks(), 1000);
}

#[test]
fn ordering_matches_tick_order() {
    let a = Instant::<FrozenClock>::from_ticks(1);
    let b = Instant::<FrozenClock>::from_ticks(2);
    assert!(a < b);
    assert!(!(b < a));
    assert!(b > a);
    assert!(a <= a);
    assert_eq!(a, Instant::from_ticks(1));
    assert_ne!(a, b);
}

#[test]
fn unit_constructors_and_extractors() {
    let i = Instant::<FrozenClock>::from_millis(1500);
    assert_eq!(i.to_ticks(), 1500);
    assert_eq!(i.to_millis(), 1500);
    assert_eq!(i.to_secs(), 1);
    assert_eq!(Instant::<FrozenClock>::from_secs(2).to_ticks(), 2000);
    assert_eq!(Instant::<FrozenClock>::from_micros(2000).to_ticks(), 2);
}

#[test]
fn duration_since_measures_the_gap() {
    let early = Instant::<FrozenClock>::from_ticks(400);
    let late = Instant::<FrozenClock>::from_ticks(1000);
    assert_eq!(late.duration_since(early), Duration::from_ticks(600));
    assert_eq!(late.duration_since(late), Duration::from_ticks(0));
}

#[test]
fn gap_to_the_clock_reading() {
    // The clock is frozen at tick 1000.
    let past = Instant::<FrozenClock>::from_ticks(400);
    assert_eq!(Instant::<FrozenClock>::now().duration_since(past), Duration::from_ticks(600));
}

#[test]
fn checked_shifts() {
    let i = Instant::<FrozenClock>::from_ticks(100);
    assert_eq!(i.checked_add(Duration::from_ticks(50)), Some(Instant::from_ticks(150)));
    assert_eq!(i.checked_sub(Duration::from_ticks(40)), Some(Instant::from_ticks(60)));
    assert!(i.checked_sub(Duration::from_ticks(101)).is_none());
    assert!(
        Instant::<FrozenClock>::from_ticks(u64::MAX).checked_add(Duration::from_ticks(1)).is_none()
    );
}

#[test]
fn shift_operators() {
    let i = Instant::<FrozenClock>::from_ticks(100);
    assert_eq!(i + Duration::from_ticks(50), Instant::from_ticks(150));
    assert_eq!(i - Duration::from_ticks(50), Instant::from_ticks(50));
    assert_eq!(i - Instant::from_ticks(30), Duration::from_ticks(70));
}

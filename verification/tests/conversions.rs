use ticktime::conv::{
    micros_to_ticks, millis_to_ticks, secs_to_ticks, ticks_to_micros, ticks_to_millis,
    ticks_to_secs,
};

#[test]
fn one_hertz_seconds_are_ticks() {
    assert_eq!(secs_to_ticks(5, 1), 5);
    assert_eq!(ticks_to_secs(5, 1), 5);
}

#[test]
fn micros_identity_at_matching_rate() {
    assert_eq!(micros_to_ticks(0, 1_000_000), 0);
    assert_eq!(micros_to_ticks(123_456, 1_000_000), 123_456);
    assert_eq!(micros_to_ticks(u64::MAX, 1_000_000), u64::MAX);
    assert_eq!(ticks_to_micros(123_456, 1_000_000), 123_456);
}

#[test]
fn millis_at_low_power_oscillator_rate() {
    assert_eq!(millis_to_ticks(1000, 32768), 32768);
    assert_eq!(ticks_to_millis(32768, 32768), 1000);
}

#[test]
fn conversion_rounds_toward_zero() {
    // 1 tick at 3 ticks per second is 333 milliseconds, never 334.
    assert_eq!(ticks_to_millis(1, 3), 333);
    // 999 microseconds at 1000 ticks per second is not quite one tick.
    assert_eq!(micros_to_ticks(999, 1000), 0);
    assert_eq!(micros_to_ticks(1000, 1000), 1);
    // 7 ticks at 2 ticks per second is 3 whole seconds.
    assert_eq!(ticks_to_secs(7, 2), 3);
}

#[test]
fn fast_paths_match_general_formula() {
    // Each power-of-ten rate must give the same result as the formula
    // `input * rate / unit`, rounded down.
    assert_eq!(micros_to_ticks(1_500_000, 10), 15);
    assert_eq!(micros_to_ticks(1_500_000, 10_000_000), 15_000_000);
    assert_eq!(millis_to_ticks(1500, 10_000), 15_000);
    assert_eq!(millis_to_ticks(1500, 100_000_000), 150_000_000);
    assert_eq!(ticks_to_micros(15, 10), 1_500_000);
    assert_eq!(ticks_to_micros(15_000_000, 10_000_000), 1_500_000);
    assert_eq!(ticks_to_millis(15_000, 10_000), 1500);
    assert_eq!(ticks_to_millis(150_000_000, 100_000_000), 1500);
}

#[test]
fn round_trip_never_gains_ticks() {
    // At 3 ticks per second the microsecond count truncates, so the trip
    // back loses one tick.
    let micros = ticks_to_micros(10, 3);
    assert_eq!(micros, 3_333_333);
    assert_eq!(micros_to_ticks(micros, 3), 9);
    // A tick count whose microsecond value is exact comes back unchanged.
    let exact = ticks_to_micros(3, 3);
    assert_eq!(exact, 1_000_000);
    assert_eq!(micros_to_ticks(exact, 3), 3);
}

#[test]
fn odd_rate_general_path() {
    // 48 kHz: one millisecond is 48 ticks, one tick is 20 microseconds.
    assert_eq!(millis_to_ticks(1, 48_000), 48);
    assert_eq!(ticks_to_micros(1, 48_000), 20);
    assert_eq!(secs_to_ticks(2, 48_000), 96_000);
    assert_eq!(ticks_to_secs(96_000, 48_000), 2);
}

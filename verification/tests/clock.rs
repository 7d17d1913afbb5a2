//! Clocks.

use procguard::args::Confine;
use procguard::clock::{
    active_now_ns, get_timebase_info, precise_now_ns, wall_now_ns, ClockReading, MachTimebaseInfo,
};
use procguard::error::TimeoutError;

/* the readings of a machine whose tick is a nanosecond */
fn reading() -> ClockReading {
    ClockReading {
        timebase: MachTimebaseInfo { numer: 1, denom: 1 },
        continuous_ticks: 987_654_321,
        raw_ns: 123_456_789,
    }
}

#[test]
fn test_get_timebase_info_succeeds() {
    let result = get_timebase_info(&reading().timebase);
    assert!(result.is_ok(), "timebase info should succeed on macOS");
    let (numer, denom) = result.unwrap();
    assert!(numer > 0, "numer should be positive");
    assert!(denom > 0, "denom should be positive (validated)");
}

#[test]
fn test_wall_now_ns_succeeds() {
    let result = wall_now_ns(&reading());
    assert!(result.is_ok(), "wall_now_ns should succeed on macOS");
    let ns = result.unwrap();
    assert!(ns > 0, "time should be positive");
    assert_eq!(ns, 987_654_321);
}

#[test]
fn test_precise_now_ns_both_modes() {
    let wall = precise_now_ns(Confine::Wall, &reading());
    assert!(wall.is_ok(), "wall mode should succeed");

    let active = precise_now_ns(Confine::Active, &reading());
    assert!(active.is_ok(), "active mode should succeed");

    assert_eq!(wall.unwrap(), 987_654_321);
    assert_eq!(active.unwrap(), 123_456_789);
    assert_eq!(active_now_ns(&reading()), 123_456_789);
}

#[test]
fn ticks_are_converted() {
    let mut reading = reading();
    reading.timebase = MachTimebaseInfo { numer: 125, denom: 3 };
    reading.continuous_ticks = 24_000_000;
    assert_eq!(wall_now_ns(&reading).unwrap(), 1_000_000_000);
    /* the product does not fit 64 bits, the quotient does */
    reading.continuous_ticks = 400_000_000_000_000_000;
    assert_eq!(wall_now_ns(&reading).unwrap(), 16_666_666_666_666_666_666);
}

#[test]
fn broken_timebase_is_an_error_for_the_wall_clock_only() {
    let mut reading = reading();
    reading.timebase.denom = 0;
    assert!(matches!(get_timebase_info(&reading.timebase), Err(TimeoutError::TimebaseError)));
    assert!(matches!(precise_now_ns(Confine::Wall, &reading), Err(TimeoutError::TimebaseError)));
    assert!(matches!(precise_now_ns(Confine::Active, &reading), Ok(123_456_789)));
}

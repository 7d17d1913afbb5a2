//! Reading the machine's clocks.

use vstd::prelude::*;

use crate::args::Confine;
use crate::error::TimeoutError;

verus! {

/// How many nanoseconds a tick is, as a fraction.
#[derive(Clone, Copy, Debug, PartialEq, Eq, Structural)]
pub struct MachTimebaseInfo {
    pub numer: u32,
    pub denom: u32,
}

/// What the clocks say.
#[derive(Clone, Copy, Debug, PartialEq, Eq, Structural)]
pub struct ClockReading {
    pub timebase: MachTimebaseInfo,
    /// Ticks since some moment, those while the machine slept included.
    pub continuous_ticks: u64,
    /// Nanoseconds since some moment, without the time the machine slept.
    pub raw_ns: u64,
}

/// The ticks in nanoseconds, of which the low 64 bits count.
pub open spec fn ticks_to_ns(ticks: u64, info: MachTimebaseInfo) -> u64 {
    (ticks * info.numer / (info.denom as int)) as u64
}

/// The length of a tick; an error where it is no fraction.
pub fn get_timebase_info(info: &MachTimebaseInfo) -> (ratio: Result<(u64, u64), TimeoutError>)
    ensures
        ratio == (if info.denom == 0 {
            Err(TimeoutError::TimebaseError)
        } else {
            Ok((info.numer as u64, info.denom as u64))
        }),
{
    if info.denom == 0 {
        return Err(TimeoutError::TimebaseError);
    }
    Ok((info.numer as u64, info.denom as u64))
}

/// The time in nanoseconds, the time the machine slept included.
pub fn wall_now_ns(reading: &ClockReading) -> (now: Result<u64, TimeoutError>)
    ensures
        now == (if reading.timebase.denom == 0 {
            Err(TimeoutError::TimebaseError)
        } else {
            Ok(ticks_to_ns(reading.continuous_ticks, reading.timebase))
        }),
{
    let ticks: u64 = reading.continuous_ticks;
    match get_timebase_info(&reading.timebase) {
        Ok((numer, denom)) => {
            if numer == denom {
                assert(ticks * denom / (denom as int) == ticks) by (nonlinear_arith)
                    requires
                        denom > 0,
                ;
                return Ok(ticks);
            }
            assert(0 <= ticks * numer <= 0xffff_ffff_ffff_ffff * 0xffff_ffff) by (nonlinear_arith)
                requires
                    0 <= ticks <= 0xffff_ffff_ffff_ffff,
                    0 <= numer <= 0xffff_ffff,
            ;
            let ns: u128 = ticks as u128 * numer as u128 / denom as u128;
            #[verifier::truncate]
            let ns: u64 = ns as u64;
            Ok(ns)
        },
        Err(e) => Err(e),
    }
}

/// The time in nanoseconds, without the time the machine slept.
pub fn active_now_ns(reading: &ClockReading) -> (now: u64)
    ensures
        now == reading.raw_ns,
{
    reading.raw_ns
}

/// The time that counts, in nanoseconds.
pub open spec fn time_of(confine: Confine, reading: ClockReading) -> Result<u64, TimeoutError> {
    match confine {
        Confine::Wall => if reading.timebase.denom == 0 {
            Err(TimeoutError::TimebaseError)
        } else {
            Ok(ticks_to_ns(reading.continuous_ticks, reading.timebase))
        },
        Confine::Active => Ok(reading.raw_ns),
    }
}

/// The time that counts, in nanoseconds; an error only where the length of a
/// tick is needed and is no fraction.
pub fn precise_now_ns(confine: Confine, reading: &ClockReading) -> (now: Result<
    u64,
    TimeoutError,
>)
    ensures
        now == time_of(confine, *reading),
{
    match confine {
        Confine::Wall => wall_now_ns(reading),
        Confine::Active => Ok(active_now_ns(reading)),
    }
}

/// A reading of the clock, or `fallback` where it failed.
pub open spec fn clock_or(reading: Result<u64, TimeoutError>, fallback: u64) -> u64 {
    match reading {
        Ok(now) => now,
        Err(_) => fallback,
    }
}

/// A reading of the clock, or `fallback` where it failed.
pub fn reading_or(reading: Result<u64, TimeoutError>, fallback: u64) -> (now: u64)
    ensures
        now == clock_or(reading, fallback),
{
    match reading {
        Ok(now) => now,
        Err(_) => fallback,
    }
}

/// A tick that is a nanosecond needs no conversion, and the clock never goes
/// backwards as long as its ticks do not and its nanoseconds fit.
pub proof fn law_clock_follows_ticks(info: MachTimebaseInfo, earlier: u64, later: u64)
    requires
        info.denom > 0,
        earlier <= later,
        later * info.numer / (info.denom as int) <= u64::MAX,
    ensures
        ticks_to_ns(earlier, info) <= ticks_to_ns(later, info),
        info.numer == info.denom ==> ticks_to_ns(later, info) == later,
{
    let (n, d) = (info.numer as int, info.denom as int);
    assert(0 <= earlier * n <= later * n) by (nonlinear_arith)
        requires
            0 <= earlier <= later,
            0 <= n,
    ;
    assert(0 <= (earlier * n) / d <= (later * n) / d) by (nonlinear_arith)
        requires
            0 <= earlier * n <= later * n,
            d > 0,
    ;
    assert(n == d ==> (later * n) / d == later) by (nonlinear_arith)
        requires
            d > 0,
    ;
}

/// By the wall clock the ticks count, those while the machine slept included, at
/// so many nanoseconds each; by the other only the time that it was awake. The
/// length of a tick matters to the first alone.
pub proof fn law_each_clock_counts_its_own(reading: ClockReading)
    ensures
        time_of(Confine::Active, reading) == Ok::<_, TimeoutError>(reading.raw_ns),
        reading.timebase.denom == 0 ==> time_of(Confine::Wall, reading) == Err::<u64, _>(
            TimeoutError::TimebaseError,
        ),
        reading.timebase.denom > 0 ==> (time_of(Confine::Wall, reading) matches Ok(ns) && (
        reading.continuous_ticks * reading.timebase.numer / (reading.timebase.denom as int)
            <= u64::MAX ==> ns * reading.timebase.denom <= reading.continuous_ticks
            * reading.timebase.numer < (ns + 1) * reading.timebase.denom)),
{
    if reading.timebase.denom > 0 {
        let (t, n, d) = (
            reading.continuous_ticks as int,
            reading.timebase.numer as int,
            reading.timebase.denom as int,
        );
        assert(0 <= t * n) by (nonlinear_arith)
            requires
                0 <= t,
                0 <= n,
        ;
        let q = (t * n) / d;
        assert(0 <= q && q * d <= t * n < (q + 1) * d) by (nonlinear_arith)
            requires
                q == (t * n) / d,
                0 <= t * n,
                d > 0,
        ;
    }
}

} // verus!

//! Durations and nanosecond arithmetic.

use vstd::prelude::*;

verus! {

/// Nanoseconds in a second.
pub const NANOS_PER_SEC: u32 = 1_000_000_000;

/// Nanoseconds in a millisecond.
pub const NANOS_PER_MILLI: u32 = 1_000_000;

/// The longest timer the kernel takes: the largest nanosecond count that fits
/// a signed 64-bit word (about 292 years).
pub const MAX_TIMER_NS: u64 = 0x7fff_ffff_ffff_ffff;

/// The smaller of two numbers.
pub open spec fn min_of(a: int, b: int) -> int {
    if a <= b {
        a
    } else {
        b
    }
}

/// `n`, cut off at the largest `u64`.
pub open spec fn clamp_u64(n: int) -> u64 {
    min_of(n, u64::MAX as int) as u64
}

/// The smaller of two `u64`.
pub fn min_u64(a: u64, b: u64) -> (m: u64)
    ensures
        m == min_of(a as int, b as int),
{
    if a <= b {
        a
    } else {
        b
    }
}

/// Product of two `u64`, cut off at the largest `u64`.
pub fn saturating_mul(a: u64, b: u64) -> (p: u64)
    ensures
        p == clamp_u64(a * b),
{
    proof {
        assert(0 <= a * b <= u64::MAX * u64::MAX) by (nonlinear_arith)
            requires
                0 <= a <= u64::MAX,
                0 <= b <= u64::MAX,
        ;
    }
    match a.checked_mul(b) {
        Some(p) => p,
        None => u64::MAX,
    }
}

/// A span of time: whole seconds and a remainder in nanoseconds.
#[derive(Clone, Copy, Debug, PartialEq, Eq, Structural, Hash)]
pub struct Duration {
    secs: u64,
    nanos: u32,
}

impl Duration {
    /// The remainder is always less than a second.
    #[verifier::type_invariant]
    spec fn in_range(self) -> bool {
        self.nanos < NANOS_PER_SEC
    }

    /// Whole seconds.
    pub closed spec fn secs(self) -> nat {
        self.secs as nat
    }

    /// Nanoseconds past the whole seconds.
    pub closed spec fn nanos(self) -> nat {
        self.nanos as nat
    }

    /// The whole span in nanoseconds.
    pub open spec fn total_ns(self) -> nat {
        self.secs() * NANOS_PER_SEC as nat + self.nanos()
    }

    /// The span of `ns` nanoseconds.
    pub closed spec fn of_ns(ns: nat) -> Duration {
        Duration {
            secs: (ns / NANOS_PER_SEC as nat) as u64,
            nanos: (ns % NANOS_PER_SEC as nat) as u32,
        }
    }

    /// The span `of_ns(ns)` is `ns` nanoseconds long, as far as its seconds
    /// fit a `u64`.
    pub broadcast proof fn lemma_of_ns(ns: nat)
        requires
            ns / NANOS_PER_SEC as nat <= u64::MAX,
        ensures
            (#[trigger] Duration::of_ns(ns)).total_ns() == ns,
            Duration::of_ns(ns).secs() == ns / NANOS_PER_SEC as nat,
            Duration::of_ns(ns).nanos() == ns % NANOS_PER_SEC as nat,
    {
        let d = Duration::of_ns(ns);
        assert(d.secs() == ns / NANOS_PER_SEC as nat);
        assert(d.nanos() == ns % NANOS_PER_SEC as nat);
    }

    /// No time at all.
    pub fn zero() -> (d: Duration)
        ensures
            d == Duration::of_ns(0),
            d.total_ns() == 0,
    {
        Duration { secs: 0, nanos: 0 }
    }

    /// `secs` whole seconds.
    pub fn from_secs(secs: u64) -> (d: Duration)
        ensures
            d == Duration::of_ns(secs as nat * NANOS_PER_SEC as nat),
            d.total_ns() == secs * NANOS_PER_SEC,
    {
        Duration { secs, nanos: 0 }
    }

    /// `millis` milliseconds.
    pub fn from_millis(millis: u64) -> (d: Duration)
        ensures
            d == Duration::of_ns(millis as nat * NANOS_PER_MILLI as nat),
            d.total_ns() == millis * NANOS_PER_MILLI,
    {
        let nanos: u32 = (millis % 1000) as u32 * NANOS_PER_MILLI;
        Duration { secs: millis / 1000, nanos }
    }

    /// `ns` nanoseconds; `None` where the seconds do not fit.
    pub fn from_nanos(ns: u128) -> (d: Option<Duration>)
        ensures
            d is Some <==> ns / NANOS_PER_SEC as u128 <= u64::MAX,
            d matches Some(d) ==> d == Duration::of_ns(ns as nat) && d.total_ns() == ns,
    {
        let secs: u128 = ns / NANOS_PER_SEC as u128;
        if secs > u64::MAX as u128 {
            return None;
        }
        let nanos: u32 = (ns % NANOS_PER_SEC as u128) as u32;
        Some(Duration { secs: secs as u64, nanos })
    }

    /// Whole seconds.
    pub fn as_secs(&self) -> (secs: u64)
        ensures
            secs == self.secs(),
    {
        self.secs
    }

    /// Nanoseconds past the whole seconds, less than a second.
    pub fn subsec_nanos(&self) -> (nanos: u32)
        ensures
            nanos == self.nanos(),
            nanos < NANOS_PER_SEC,
    {
        proof {
            use_type_invariant(self);
        }
        self.nanos
    }

    /// Whole milliseconds past the whole seconds, less than a thousand.
    pub fn subsec_millis(&self) -> (millis: u32)
        ensures
            millis == self.nanos() / NANOS_PER_MILLI as nat,
            millis < 1000,
    {
        proof {
            use_type_invariant(self);
        }
        self.nanos / NANOS_PER_MILLI
    }

    /// Is this no time at all?
    pub fn is_zero(&self) -> (zero: bool)
        ensures
            zero == (self.total_ns() == 0),
    {
        self.secs == 0 && self.nanos == 0
    }

    /// Is this span longer than `other`?
    pub fn longer_than(&self, other: &Duration) -> (longer: bool)
        ensures
            longer == (self.total_ns() > other.total_ns()),
    {
        proof {
            use_type_invariant(self);
            use_type_invariant(other);
        }
        self.secs > other.secs || (self.secs == other.secs && self.nanos > other.nanos)
    }
}

/// A wall-clock timeout of zero means "run forever".
pub fn is_no_timeout(timeout: &Duration) -> (none: bool)
    ensures
        none == (timeout.total_ns() == 0),
{
    timeout.is_zero()
}

/// The span in nanoseconds as a timer takes it: cut off at `MAX_TIMER_NS`.
pub open spec fn timer_ns(d: Duration) -> u64 {
    min_of(d.total_ns() as int, MAX_TIMER_NS as int) as u64
}

/// Nanoseconds in `d`, cut off at the longest timer.
pub fn duration_to_ns(d: Duration) -> (ns: u64)
    ensures
        ns == timer_ns(d),
        ns <= MAX_TIMER_NS,
{
    let whole: u64 = saturating_mul(d.as_secs(), NANOS_PER_SEC as u64);
    let ns: u64 = whole.saturating_add(d.subsec_nanos() as u64);
    min_u64(ns, MAX_TIMER_NS)
}

/// Whole milliseconds in `d`, cut off at the largest `u64`.
pub open spec fn millis_of(d: Duration) -> u64 {
    clamp_u64((d.secs() * 1000 + d.nanos() / NANOS_PER_MILLI as nat) as int)
}

/// Whole milliseconds in `d`, cut off at the largest `u64`.
pub fn duration_ms(d: Duration) -> (ms: u64)
    ensures
        ms == millis_of(d),
{
    let whole: u64 = saturating_mul(d.as_secs(), 1000);
    whole.saturating_add(d.subsec_millis() as u64)
}

/// The instant `delta` nanoseconds after `at`; the last representable instant
/// where that is past the end of time.
pub fn advance_ns(at: u64, delta: u64) -> (then: u64)
    ensures
        then == clamp_u64(at + delta),
{
    at.saturating_add(delta)
}

/// Has the clock come to `deadline`?
pub open spec fn reached(now: u64, deadline: u64) -> bool {
    now >= deadline
}

/// Has the clock come to `deadline`?
pub fn deadline_reached(now: u64, deadline: u64) -> (yes: bool)
    ensures
        yes == reached(now, deadline),
{
    now >= deadline
}

/// Nanoseconds left until `deadline`, none once it is reached.
pub open spec fn left_until(now: u64, deadline: u64) -> u64 {
    if deadline >= now {
        (deadline - now) as u64
    } else {
        0
    }
}

/// Nanoseconds left until `deadline`, none once it is reached.
pub fn remaining_ns(now: u64, deadline: u64) -> (left: u64)
    ensures
        left == left_until(now, deadline),
{
    deadline.saturating_sub(now)
}

/// Nanoseconds from `start` to `now`; `None` if the clock went backwards.
pub open spec fn since(start: u64, now: u64) -> Option<u64> {
    if now >= start {
        Some((now - start) as u64)
    } else {
        None
    }
}

/// Nanoseconds from `start` to `now`; `None` if the clock went backwards.
pub fn elapsed_ns(start: u64, now: u64) -> (elapsed: Option<u64>)
    ensures
        elapsed == since(start, now),
{
    now.checked_sub(start)
}

/// Milliseconds from `start` to `now`, none if the clock went backwards.
pub open spec fn millis_since(start: u64, now: u64) -> u64 {
    if now >= start {
        ((now - start) / NANOS_PER_MILLI as int) as u64
    } else {
        0
    }
}

/// Milliseconds from `start` to `now`, none if the clock went backwards.
pub fn elapsed_ms(start: u64, now: u64) -> (ms: u64)
    ensures
        ms == millis_since(start, now),
{
    match elapsed_ns(start, now) {
        Some(ns) => ns / NANOS_PER_MILLI as u64,
        None => 0,
    }
}

/// Nanoseconds until input idle since `last` has been idle for `limit`, none
/// once it has; `None` if the clock went backwards.
pub open spec fn idle_left(last: u64, now: u64, limit: u64) -> Option<u64> {
    match since(last, now) {
        Some(idle) => Some(left_until(idle, limit)),
        None => None,
    }
}

/// Nanoseconds until input idle since `last` has been idle for `limit`, none
/// once it has; `None` if the clock went backwards.
pub fn time_to_idle_timeout(last: u64, now: u64, limit: u64) -> (left: Option<u64>)
    ensures
        left == idle_left(last, now, limit),
{
    match elapsed_ns(last, now) {
        Some(idle) => Some(remaining_ns(idle, limit)),
        None => None,
    }
}

/// A span counts a billion nanoseconds for each whole second. A timer takes all
/// of it as long as it fits a signed word, and otherwise as much as does.
pub proof fn law_timer_takes_the_whole_span(d: Duration)
    ensures
        d.total_ns() == d.secs() * 1_000_000_000 + d.nanos(),
        d.total_ns() <= 0x7fff_ffff_ffff_ffff ==> timer_ns(d) == d.total_ns(),
        d.total_ns() > 0x7fff_ffff_ffff_ffff ==> timer_ns(d) == 0x7fff_ffff_ffff_ffffu64,
{
}

/// Milliseconds are whole: a span is as long as its milliseconds and less than
/// one more, as far as their number fits.
pub proof fn law_milliseconds_are_whole(d: Duration)
    requires
        d.nanos() < 1_000_000_000,
    ensures
        d.total_ns() / 1_000_000 <= u64::MAX ==> millis_of(d) * 1_000_000 <= d.total_ns() < (
        millis_of(d) + 1) * 1_000_000,
        d.total_ns() / 1_000_000 > u64::MAX ==> millis_of(d) == u64::MAX,
{
    assert(d.total_ns() / 1_000_000 == d.secs() * 1000 + d.nanos() / 1_000_000) by (nonlinear_arith)
        requires
            d.total_ns() == d.secs() * 1_000_000_000 + d.nanos(),
            d.nanos() < 1_000_000_000,
    ;
}

/// What has passed and what is left add up: a clock that went from `start` to
/// `now` has as many nanoseconds behind it, and a deadline is as far away as is
/// left, or has come. A clock that went backwards has passed no time.
pub proof fn law_time_adds_up(start: u64, now: u64, deadline: u64)
    ensures
        start <= now ==> (since(start, now) matches Some(ns) && start + ns == now),
        start > now ==> since(start, now) is None,
        start <= now ==> millis_since(start, now) * 1_000_000 <= now - start < (millis_since(
            start,
            now,
        ) + 1) * 1_000_000,
        start > now ==> millis_since(start, now) == 0,
        now <= deadline ==> now + left_until(now, deadline) == deadline,
        now > deadline ==> left_until(now, deadline) == 0,
        reached(now, deadline) <==> deadline <= now,
        reached(now, deadline) <==> left_until(now, deadline) == 0,
{
}

/// Input that was last active at `last` and may be idle for `limit` has that much
/// less left as time has passed, and nothing once it has been idle for so long.
pub proof fn law_idle_time_runs_down(last: u64, now: u64, limit: u64)
    ensures
        last > now ==> idle_left(last, now, limit) is None,
        last <= now ==> idle_left(last, now, limit) is Some,
        last <= now && now - last <= limit ==> now - last + idle_left(last, now, limit)->0 == limit,
        last <= now && now - last > limit ==> idle_left(last, now, limit) == Some(0u64),
{
}

/// A number that fits a `u64` is kept, and one that does not is cut off at the
/// largest.
pub proof fn law_numbers_are_cut_off_at_the_largest(n: int)
    requires
        0 <= n,
    ensures
        n <= u64::MAX ==> clamp_u64(n) == n,
        n > u64::MAX ==> clamp_u64(n) == u64::MAX,
{
}

} // verus!

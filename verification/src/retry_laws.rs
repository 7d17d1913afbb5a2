//! What holds of every run with retries.

use vstd::arithmetic::power::{lemma_pow_increases, lemma_pow_positive, pow};
use vstd::prelude::*;

use crate::args::Confine;
use crate::attempts::{AttemptResult, MAX_RETRIES};
use crate::config::RunConfig;
use crate::error::TimeoutError;
use crate::notice::Notice;
use crate::outcome::RunResult;
use crate::retry::{
    attempt_limit, attempt_of, delay_after, ran_out, RetryAction, RetryEvent, RetryPhase,
    RetryView, MAX_DELAY_MS,
};
use crate::signal::Signal;
use crate::time::{law_milliseconds_are_whole, millis_of, min_of, Duration};

verus! {

impl RetryView {
    /// The run after a row of events.
    pub open spec fn after(self, events: Seq<RetryEvent>, config: RunConfig) -> RetryView
        decreases events.len(),
    {
        if events.len() == 0 {
            self
        } else {
            self.after(events.drop_last(), config).next(events.last(), config).0
        }
    }

    /// What the run wants after a row of at least one event.
    pub open spec fn wants(self, events: Seq<RetryEvent>, config: RunConfig) -> RetryAction {
        self.after(events.drop_last(), config).next(events.last(), config).1
    }

    /// Is each event what came of the action asked for before it?
    pub open spec fn answered_by(self, events: Seq<RetryEvent>, config: RunConfig) -> bool
        decreases events.len(),
    {
        events.len() > 0 ==> self.answered_by(events.drop_last(), config) && self.after(
            events.drop_last(),
            config,
        ).awaits(events.last())
    }

    /// How often the command was to be run in a row of events.
    pub open spec fn runs(self, events: Seq<RetryEvent>, config: RunConfig) -> nat
        decreases events.len(),
    {
        if events.len() == 0 {
            0
        } else {
            self.runs(events.drop_last(), config) + if self.wants(events, config) is RunCommand {
                1nat
            } else {
                0
            }
        }
    }
}

/// Did every one of these attempts run out of something?
pub open spec fn all_ran_out(history: Seq<AttemptResult>) -> bool {
    forall|i: int| 0 <= i < history.len() ==> (#[trigger] history[i]).status == "timeout"
}

/// Do only attempts that completed have an exit code?
pub open spec fn codes_of_completed(history: Seq<AttemptResult>) -> bool {
    forall|i: int|
        0 <= i < history.len() && (#[trigger] history[i]).exit_code is Some ==> history[i].status
            == "completed"
}

/// How many attempts were made and noted, by where the run is.
spec fn counted(view: RetryView, runs: nat, config: RunConfig) -> bool {
    &&& view.in_order()
    &&& view.max_attempts == attempt_limit(config)
    &&& view.phase is SayingCap || view.phase is StartClock ==> runs == view.attempt
    &&& view.phase is Running || view.phase is EndClock ==> runs == view.attempt + 1
    &&& view.phase is SayingDelay || view.phase is Delaying || view.phase is ReadingSignal
        ==> runs == view.attempt + 1 && view.history.len() == view.attempt + 1
    &&& runs <= view.max_attempts
    &&& view.phase !is Done ==> all_ran_out(view.history)
    &&& codes_of_completed(view.history)
}

/// What holds when the run is over: every attempt but the last ran out of
/// something, and all that was run is noted. If the last did so too then there
/// were as many attempts as there could be. If it did not, it is the outcome.
/// Only an attempt that completed has an exit code.
pub open spec fn well_ended(
    history: Seq<AttemptResult>,
    runs: nat,
    result: RunResult,
    config: RunConfig,
) -> bool {
    &&& runs == history.len()
    &&& 1 <= runs <= attempt_limit(config)
    &&& all_ran_out(history.drop_last())
    &&& codes_of_completed(history)
    &&& ran_out(result) ==> runs == attempt_limit(config) && history.last().status == "timeout"
    &&& result matches RunResult::Completed { status, .. } ==> history.last().status == "completed"
        && history.last().exit_code == status.exit_code()
    &&& result is SignalForwarded ==> history.last().status == "signal" || all_ran_out(history)
}

proof fn lemma_retry_step(view: RetryView, event: RetryEvent, runs: nat, config: RunConfig)
    requires
        view.awaits(event),
        counted(view, runs, config),
    ensures
        ({
            let (then, action) = view.next(event, config);
            let runs_then = if action is RunCommand {
                runs + 1
            } else {
                runs
            };
            &&& counted(then, runs_then, config)
            &&& action matches RetryAction::Return(Ok(result)) ==> well_ended(
                then.history,
                runs_then,
                result,
                config,
            )
        }),
{
    match (view.phase, event) {
        (RetryPhase::EndClock(result), RetryEvent::Clock(reading)) => {
            let elapsed = crate::time::millis_since(
                view.start_ns,
                crate::clock::clock_or(reading, view.start_ns),
            );
            let history = view.history.push(attempt_of(result, elapsed));
            assert(history.drop_last() =~= view.history);
            assert(history.last() == attempt_of(result, elapsed));
            if ran_out(result) {
                assert(all_ran_out(history));
            }
        },
        (RetryPhase::Delaying, RetryEvent::Delayed(elapsed)) => {
            assert(all_ran_out(view.history.drop_last()));
        },
        (RetryPhase::ReadingSignal, _) => {
            assert(all_ran_out(view.history.drop_last()));
        },
        _ => {},
    }
}

proof fn lemma_counted(
    command: Seq<char>,
    args: Seq<String>,
    config: RunConfig,
    signal_fd: i32,
    events: Seq<RetryEvent>,
)
    requires
        RetryView::begun(command, args, config, signal_fd).answered_by(events, config),
    ensures
        counted(
            RetryView::begun(command, args, config, signal_fd).after(events, config),
            RetryView::begun(command, args, config, signal_fd).runs(events, config),
            config,
        ),
    decreases events.len(),
{
    if events.len() > 0 {
        let begun = RetryView::begun(command, args, config, signal_fd);
        let before = events.drop_last();
        lemma_counted(command, args, config, signal_fd, before);
        lemma_retry_step(
            begun.after(before, config),
            events.last(),
            begun.runs(before, config),
            config,
        );
    }
}

/// Only a command that ran out of something is run again. It is run again until
/// it does not, or as often as was asked for, but no more than 32 times in all.
/// Each attempt is noted, in order.
pub proof fn law_only_timeouts_are_retried(
    command: Seq<char>,
    args: Seq<String>,
    config: RunConfig,
    signal_fd: i32,
    events: Seq<RetryEvent>,
    result: RunResult,
)
    requires
        events.len() > 0,
        RetryView::begun(command, args, config, signal_fd).answered_by(events, config),
        RetryView::begun(command, args, config, signal_fd).wants(events, config) == RetryAction::Return(
            Ok(result),
        ),
    ensures
        well_ended(
            RetryView::begun(command, args, config, signal_fd).after(events, config).history,
            RetryView::begun(command, args, config, signal_fd).runs(events, config),
            result,
            config,
        ),
{
    let begun = RetryView::begun(command, args, config, signal_fd);
    let before = events.drop_last();
    lemma_counted(command, args, config, signal_fd, before);
    lemma_retry_step(
        begun.after(before, config),
        events.last(),
        begun.runs(before, config),
        config,
    );
}

/// However many retries are asked for, the command is run 32 times at most, and
/// once more than was asked for at most.
pub proof fn law_attempts_are_bounded(
    command: Seq<char>,
    args: Seq<String>,
    config: RunConfig,
    signal_fd: i32,
    events: Seq<RetryEvent>,
)
    requires
        RetryView::begun(command, args, config, signal_fd).answered_by(events, config),
    ensures
        RetryView::begun(command, args, config, signal_fd).runs(events, config) <= attempt_limit(config),
        attempt_limit(config) <= MAX_RETRIES,
        attempt_limit(config) <= config.retry_count + 1,
        RetryView::begun(command, args, config, signal_fd).after(events, config).history.len() <= MAX_RETRIES,
{
    lemma_counted(command, args, config, signal_fd, events);
}

/// The first delay is the one that was asked for. With a backoff no delay is
/// longer than five minutes, and none shorter than the one before.
pub proof fn law_delays_grow_to_a_cap(config: RunConfig, attempt: u32)
    requires
        config.retry_backoff > 1,
        attempt < u32::MAX,
    ensures
        delay_after(config, attempt).total_ns() <= MAX_DELAY_MS * 1_000_000,
        delay_after(config, 0).total_ns() == min_of(
            millis_of(config.retry_delay) as int,
            MAX_DELAY_MS as int,
        ) * 1_000_000,
        delay_after(config, attempt).total_ns() <= delay_after(
            config,
            (attempt + 1) as u32,
        ).total_ns(),
{
    broadcast use Duration::lemma_of_ns;

    let base = config.retry_backoff as int;
    let ms = millis_of(config.retry_delay) as int;
    let (p, q) = (pow(base, attempt as nat), pow(base, (attempt + 1) as nat));
    reveal(pow);
    assert(pow(base, 0) == 1);
    lemma_pow_positive(base, attempt as nat);
    lemma_pow_positive(base, (attempt + 1) as nat);
    lemma_pow_increases(base as nat, attempt as nat, (attempt + 1) as nat);
    assert(0 <= ms * p <= ms * q) by (nonlinear_arith)
        requires
            0 <= ms,
            0 < p <= q,
    ;
    let delay = (min_of(ms * p, MAX_DELAY_MS as int) * 1_000_000) as nat;
    let next = (min_of(ms * q, MAX_DELAY_MS as int) * 1_000_000) as nat;
    let first = (min_of(ms * pow(base, 0), MAX_DELAY_MS as int) * 1_000_000) as nat;
    assert(delay_after(config, attempt) == Duration::of_ns(delay));
    assert(delay_after(config, (attempt + 1) as u32) == Duration::of_ns(next));
    assert(delay_after(config, 0) == Duration::of_ns(first));
    assert(ms * pow(base, 0) == ms);
}

/// Without a backoff every delay is the one that was asked for.
pub proof fn law_delay_is_constant_without_backoff(config: RunConfig, attempt: u32)
    requires
        config.retry_backoff <= 1,
    ensures
        delay_after(config, attempt) == config.retry_delay,
{
}

/// Every attempt runs the same command with the same arguments.
pub proof fn law_attempts_run_the_same_command(
    command: Seq<char>,
    args: Seq<String>,
    config: RunConfig,
    signal_fd: i32,
    events: Seq<RetryEvent>,
)
    ensures
        RetryView::begun(command, args, config, signal_fd).after(events, config).command
            == command,
        RetryView::begun(command, args, config, signal_fd).after(events, config).args == args,
    decreases events.len(),
{
    if events.len() > 0 {
        law_attempts_run_the_same_command(command, args, config, signal_fd, events.drop_last());
        let was = RetryView::begun(command, args, config, signal_fd).after(
            events.drop_last(),
            config,
        );
        match (was.phase, events.last()) {
            (RetryPhase::EndClock(_), _) => {},
            (RetryPhase::Delaying, _) => {},
            _ => {},
        }
    }
}

/// Every attempt is timed on the clock that is configured.
pub proof fn law_attempts_are_timed_on_one_clock(
    begun: RetryView,
    events: Seq<RetryEvent>,
    config: RunConfig,
    confine: Confine,
)
    requires
        events.len() > 0,
        begun.answered_by(events, config),
        begun.wants(events, config) == (RetryAction::ReadClock { confine }),
    ensures
        confine == config.confine,
{
    let was = begun.after(events.drop_last(), config);
    match (was.phase, events.last()) {
        (RetryPhase::EndClock(_), _) => {},
        (RetryPhase::SayingDelay(_), _) => {},
        (RetryPhase::Delaying, _) => {},
        _ => {},
    }
}

/// With a backoff each delay is so many times as long as the one before, and the
/// first as long as was asked for, in whole milliseconds; but none is longer than
/// five minutes.
pub proof fn law_each_delay_multiplies_the_one_before(config: RunConfig, attempt: u32)
    requires
        config.retry_backoff > 1,
        attempt < u32::MAX,
        config.retry_delay.nanos() < 1_000_000_000,
    ensures
        ({
            let asked = config.retry_delay.total_ns() - config.retry_delay.total_ns() % 1_000_000;
            let delay = delay_after(config, attempt).total_ns();
            let next = delay_after(config, (attempt + 1) as u32).total_ns();
            let cap = 300_000_000_000int;
            &&& delay_after(config, 0).total_ns() == if asked <= cap {
                asked
            } else {
                cap
            }
            &&& next == if config.retry_backoff * delay <= cap {
                config.retry_backoff * delay
            } else {
                cap
            }
        }),
{
    broadcast use Duration::lemma_of_ns;

    let factor = config.retry_backoff as int;
    let ms = millis_of(config.retry_delay) as int;
    let cap = 300_000int;
    let (p, q) = (pow(factor, attempt as nat), pow(factor, (attempt + 1) as nat));
    reveal(pow);
    assert(pow(factor, 0) == 1);
    assert(q == factor * p);
    lemma_pow_positive(factor, attempt as nat);
    lemma_pow_positive(factor, (attempt + 1) as nat);
    assert(ms * q == factor * (ms * p)) by (nonlinear_arith)
        requires
            q == factor * p,
    ;
    assert(0 <= ms * p) by (nonlinear_arith)
        requires
            0 <= ms,
            0 < p,
    ;
    let delay = min_of(ms * p, cap);
    let next = min_of(ms * q, cap);
    assert(ms * p <= factor * (ms * p)) by (nonlinear_arith)
        requires
            0 <= ms * p,
            factor >= 1,
    ;
    if ms * p > cap {
        assert(factor * cap >= cap) by (nonlinear_arith)
            requires
                factor >= 1,
                cap == 300_000,
        ;
    }
    assert(next == min_of(factor * delay, cap));
    assert(factor * (delay * 1_000_000) == (factor * delay) * 1_000_000) by (nonlinear_arith);
    assert(delay_after(config, attempt) == Duration::of_ns((delay * 1_000_000) as nat));
    assert(delay_after(config, (attempt + 1) as u32) == Duration::of_ns(
        (next * 1_000_000) as nat,
    ));
    assert(ms * pow(factor, 0) == ms);
    assert(delay_after(config, 0) == Duration::of_ns((min_of(ms, cap) * 1_000_000) as nat));
    law_milliseconds_are_whole(config.retry_delay);
}

/// There is one attempt more than retries are asked for, and never more than 32.
/// A run begins with none behind it, and says so first if it cannot do all that
/// was asked for.
pub proof fn law_run_begins_with_all_its_attempts(
    command: Seq<char>,
    args: Seq<String>,
    config: RunConfig,
    signal_fd: i32,
)
    ensures
        config.retry_count <= 31 ==> attempt_limit(config) == config.retry_count + 1,
        config.retry_count > 31 ==> attempt_limit(config) == 32,
        ({
            let begun = RetryView::begun(command, args, config, signal_fd);
            &&& begun.command == command
            &&& begun.args == args
            &&& begun.attempt == 0
            &&& begun.max_attempts == attempt_limit(config)
            &&& begun.history.len() == 0
            &&& signal_fd >= 0 ==> begun.signal_fd == Some(signal_fd)
            &&& signal_fd < 0 ==> begun.signal_fd is None
            &&& begun.phase is SayingCap <==> config.verbose && !config.quiet && config.retry_count
                > 31
            &&& begun.phase is SayingCap || begun.phase is StartClock
        }),
{
}

/// Each attempt is timed: from the reading of the clock before the command is run,
/// to the one after it. What is noted of it is whether it completed, ran out of
/// something or was told to stop, its exit code if it completed, and how many
/// milliseconds it took; where the clock cannot be read it took none.
pub proof fn law_attempt_is_noted_as_it_was(view: RetryView, result: RunResult)
    requires
        view.phase == RetryPhase::EndClock(result),
    ensures
        forall|reading: Result<u64, TimeoutError>, config: RunConfig|
            ({
                let then = (#[trigger] view.next(RetryEvent::Clock(reading), config)).0;
                let noted = then.history.last();
                &&& then.history.len() == view.history.len() + 1
                &&& then.history.drop_last() == view.history
                &&& result matches RunResult::Completed { status, .. } ==> noted.status
                    == "completed" && noted.exit_code == status.exit_code()
                &&& result is SignalForwarded ==> noted.status == "signal" && noted.exit_code
                    is None
                &&& result is TimedOut || result is MemoryLimitExceeded ==> noted.status
                    == "timeout" && noted.exit_code is None
                &&& reading is Err ==> noted.elapsed_ms == 0
                &&& reading matches Ok(now) ==> {
                    &&& view.start_ns <= now ==> noted.elapsed_ms * 1_000_000 <= now
                        - view.start_ns < (noted.elapsed_ms + 1) * 1_000_000
                    &&& view.start_ns > now ==> noted.elapsed_ms == 0
                }
            }),
{
    assert forall|reading: Result<u64, TimeoutError>, config: RunConfig|
        (#[trigger] view.next(RetryEvent::Clock(reading), config)).0.history.len()
            == view.history.len() + 1 && view.next(
            RetryEvent::Clock(reading),
            config,
        ).0.history.drop_last() == view.history by {
        let then = view.next(RetryEvent::Clock(reading), config).0;
        assert(then.history.drop_last() =~= view.history);
    }
}

/// The clock is read, the command is run, and the clock is read again. A command
/// that could not be run at all is not run again.
pub proof fn law_attempt_is_timed(
    view: RetryView,
    now: u64,
    error: TimeoutError,
    result: RunResult,
    config: RunConfig,
)
    ensures
        view.phase is StartClock ==> {
            let (then, action) = view.next(RetryEvent::Clock(Ok(now)), config);
            action is RunCommand && then.start_ns == now && then.attempt == view.attempt
        },
        view.phase is StartClock ==> {
            let (then, action) = view.next(RetryEvent::Clock(Err(error)), config);
            action is RunCommand && then.start_ns == 0
        },
        view.phase is Running ==> {
            let (then, action) = view.next(RetryEvent::Ran(Ok(result)), config);
            action is ReadClock && then.phase == RetryPhase::EndClock(result) && then.start_ns
                == view.start_ns
        },
        view.phase is Running ==> view.next(RetryEvent::Ran(Err(error)), config).1
            == RetryAction::Return(Err(error)),
{
}

/// After an attempt that ran out of something, as long as there are more, the next
/// one follows its delay, or at once if that is nothing; a loud run says so first.
/// After any other attempt, and after the last, the run is over with its outcome.
pub proof fn law_next_attempt_follows_its_delay(
    view: RetryView,
    result: RunResult,
    reading: Result<u64, TimeoutError>,
    config: RunConfig,
)
    requires
        view.phase == RetryPhase::EndClock(result),
        view.attempt < u32::MAX,
    ensures
        ({
            let (then, action) = view.next(RetryEvent::Clock(reading), config);
            let again = (result is TimedOut || result is MemoryLimitExceeded) && view.attempt + 1
                < view.max_attempts;
            let delay = delay_after(config, view.attempt);
            let loud = config.verbose && !config.quiet;
            let (later, follows) = if loud {
                then.next(RetryEvent::Said, config)
            } else {
                (then, action)
            };
            &&& !again ==> action == RetryAction::Return(Ok(result))
            &&& again && loud ==> (action matches RetryAction::Say(
                Notice::RetryDelay { attempt, delay_ms },
            ) && attempt == view.attempt + 1 && delay_ms == millis_of(delay))
            &&& again && delay.total_ns() > 0 ==> follows == (RetryAction::Delay {
                delay,
                signal_fd: view.signal_fd,
            })
            &&& again && delay.total_ns() == 0 ==> follows is ReadClock && later.attempt
                == view.attempt + 1 && later.phase is StartClock
        }),
{
}

/// When the delay has passed the next attempt begins. A signal that comes
/// meanwhile ends the run instead: it is read from the pipe, and is `SIGTERM` where
/// that says nothing.
pub proof fn law_signal_ends_the_delay(
    view: RetryView,
    fd: i32,
    count: i64,
    byte: u8,
    config: RunConfig,
)
    ensures
        view.phase is Delaying && view.attempt < u32::MAX ==> {
            let (then, action) = view.next(RetryEvent::Delayed(true), config);
            action is ReadClock && then.phase is StartClock && then.attempt == view.attempt + 1
                && then.history == view.history
        },
        view.phase is Delaying && view.signal_fd == Some(fd) ==> view.next(
            RetryEvent::Delayed(false),
            config,
        ).1 == (RetryAction::ReadSignal { fd }),
        view.phase is Delaying && view.signal_fd is None ==> view.next(
            RetryEvent::Delayed(false),
            config,
        ).1 == RetryAction::Return(
            Ok(
                RunResult::SignalForwarded {
                    signal: Signal::SIGTERM,
                    status: None,
                    rusage: None,
                },
            ),
        ),
        view.phase is ReadingSignal ==> {
            let action = view.next(RetryEvent::SignalByte { count, byte }, config).1;
            action matches RetryAction::Return(
                Ok(RunResult::SignalForwarded { signal, status: None, rusage: None }),
            ) && signal.number() == if count > 0 && 1 <= byte <= 31 {
                byte as int
            } else {
                15
            }
        },
{
}

/// A delay that is announced is the one for the attempt that was made.
proof fn lemma_announced_delay(
    command: Seq<char>,
    args: Seq<String>,
    config: RunConfig,
    signal_fd: i32,
    events: Seq<RetryEvent>,
)
    requires
        RetryView::begun(command, args, config, signal_fd).answered_by(events, config),
    ensures
        ({
            let then = RetryView::begun(command, args, config, signal_fd).after(events, config);
            then.phase matches RetryPhase::SayingDelay(delay) ==> delay == delay_after(
                config,
                then.attempt,
            )
        }),
    decreases events.len(),
{
    if events.len() > 0 {
        lemma_announced_delay(command, args, config, signal_fd, events.drop_last());
        let was = RetryView::begun(command, args, config, signal_fd).after(
            events.drop_last(),
            config,
        );
        match (was.phase, events.last()) {
            (RetryPhase::EndClock(_), _) => {},
            (RetryPhase::Delaying, _) => {},
            _ => {},
        }
    }
}

/// Over a whole run, the delay after so many runs of the command is the one for
/// that many, and what is watched meanwhile is the signal pipe.
pub proof fn law_delays_go_by_the_number_of_runs(
    command: Seq<char>,
    args: Seq<String>,
    config: RunConfig,
    signal_fd: i32,
    events: Seq<RetryEvent>,
    delay: Duration,
    watched: Option<i32>,
)
    requires
        events.len() > 0,
        RetryView::begun(command, args, config, signal_fd).answered_by(events, config),
        RetryView::begun(command, args, config, signal_fd).wants(events, config) == (
        RetryAction::Delay { delay, signal_fd: watched }),
    ensures
        ({
            let runs = RetryView::begun(command, args, config, signal_fd).runs(events, config);
            &&& 1 <= runs <= 31
            &&& delay == delay_after(config, (runs - 1) as u32)
        }),
        delay.total_ns() > 0,
        signal_fd >= 0 ==> watched == Some(signal_fd),
        signal_fd < 0 ==> watched is None,
{
    let begun = RetryView::begun(command, args, config, signal_fd);
    let before = events.drop_last();
    lemma_counted(command, args, config, signal_fd, before);
    lemma_announced_delay(command, args, config, signal_fd, before);
    lemma_pipe_is_kept(begun, before, config);
}

proof fn lemma_pipe_is_kept(begun: RetryView, events: Seq<RetryEvent>, config: RunConfig)
    ensures
        begun.after(events, config).signal_fd == begun.signal_fd,
    decreases events.len(),
{
    if events.len() > 0 {
        lemma_pipe_is_kept(begun, events.drop_last(), config);
    }
}

/// A loud run that is asked for more than 31 retries says first how many were asked
/// for and how many there will be, and only then looks at its clock; any other run
/// looks at its clock at once.
pub proof fn law_capped_run_says_so_first(
    command: Seq<char>,
    args: Seq<String>,
    config: RunConfig,
    signal_fd: i32,
)
    ensures
        ({
            let begun = RetryView::begun(command, args, config, signal_fd);
            let first = RetryView::first_action(config);
            let capped = config.verbose && !config.quiet && config.retry_count > 31;
            let clock = RetryAction::ReadClock { confine: config.confine };
            &&& capped ==> first == RetryAction::Say(
                Notice::RetryCapped { asked: config.retry_count, maximum: 31 },
            )
            &&& capped ==> begun.awaits(RetryEvent::Said) && begun.next(RetryEvent::Said, config).1
                == clock
            &&& !capped ==> first == clock && begun.phase is StartClock
        }),
{
}

} // verus!

//! What holds of every watched command, whatever it does.

use vstd::prelude::*;

use crate::config::RunConfig;
use crate::monitor::{
    grace_setup, Cause, Monitor, MonitorAction, MonitorEvent, MonitorPhase, Purpose,
};
use crate::outcome::RunResult;
use crate::signal::Signal;
use crate::wait_laws::{law_wait_tells_of_its_limits, wait_returns};

verus! {

impl Monitor {
    /// The monitor after a row of events.
    pub open spec fn after(self, events: Seq<MonitorEvent>, config: RunConfig) -> Monitor
        decreases events.len(),
    {
        if events.len() == 0 {
            self
        } else {
            self.after(events.drop_last(), config).next(events.last(), config).0
        }
    }

    /// What the monitor wants after a row of at least one event.
    pub open spec fn wants(self, events: Seq<MonitorEvent>, config: RunConfig) -> MonitorAction {
        self.after(events.drop_last(), config).next(events.last(), config).1
    }

    /// Is each event what came of the action asked for before it?
    pub open spec fn answered_by(self, events: Seq<MonitorEvent>, config: RunConfig) -> bool
        decreases events.len(),
    {
        events.len() > 0 ==> self.answered_by(events.drop_last(), config) && self.after(
            events.drop_last(),
            config,
        ).awaits(events.last())
    }

    /// The signals that the command was to be sent in a row of events.
    pub open spec fn sent(self, events: Seq<MonitorEvent>, config: RunConfig) -> Seq<Signal>
        decreases events.len(),
    {
        if events.len() == 0 {
            Seq::empty()
        } else {
            let before = self.sent(events.drop_last(), config);
            match self.wants(events, config) {
                MonitorAction::Send { signal, .. } => before.push(signal),
                _ => before,
            }
        }
    }

    /// How often the hook was to be run in a row of events.
    pub open spec fn hooked(self, events: Seq<MonitorEvent>, config: RunConfig) -> nat
        decreases events.len(),
    {
        if events.len() == 0 {
            0
        } else {
            self.hooked(events.drop_last(), config) + if self.wants(events, config) is RunHook {
                1nat
            } else {
                0
            }
        }
    }

    /// How many more events there can be at most.
    pub open spec fn steps_left(self) -> nat {
        match self.phase {
            MonitorPhase::Starting => 15,
            MonitorPhase::StartingThrottle => 14,
            MonitorPhase::SayingNoThrottle => 13,
            MonitorPhase::Waiting => 12,
            MonitorPhase::SayingReason(_) => 11,
            MonitorPhase::Hooking(_) => 10,
            MonitorPhase::Saying(Purpose::Stop(_)) => 9,
            MonitorPhase::Resuming(Purpose::Stop(_)) => 8,
            MonitorPhase::Sending(Purpose::Stop(_)) => 7,
            MonitorPhase::Grace(_) => 6,
            MonitorPhase::Saying(_) => 5,
            MonitorPhase::Resuming(_) => 4,
            MonitorPhase::Sending(_) => 3,
            MonitorPhase::Reaping(_) => 2,
            MonitorPhase::Marking(_) => 1,
            MonitorPhase::Done => 0,
        }
    }
}

/// The hooks that were run for a cause.
pub open spec fn hooks_for(cause: Cause) -> nat {
    if cause matches Cause::Timeout { hook: Some(_), .. } {
        1
    } else {
        0
    }
}

/// A timeout has run the hook if there is one.
pub open spec fn hook_matches(cause: Cause, config: RunConfig) -> bool {
    cause matches Cause::Timeout { hook, .. } ==> (hook is Some <==> config.on_timeout is Some)
}

/// May these signals and hooks come before a signal for the purpose?
pub open spec fn may_precede(
    sent: Seq<Signal>,
    hooked: nat,
    purpose: Purpose,
    config: RunConfig,
) -> bool {
    match purpose {
        Purpose::Forward(_) => {
            ||| sent =~= Seq::empty() && hooked == 0
            ||| sent =~= seq![config.signal] && config.kill_after is Some && hooked == (
            if config.on_timeout is Some {
                1nat
            } else {
                0
            })
        },
        Purpose::Stop(cause) => {
            &&& sent =~= Seq::empty()
            &&& hooked == hooks_for(cause)
            &&& hook_matches(cause, config)
        },
        Purpose::Kill(cause) => {
            &&& sent =~= seq![config.signal]
            &&& config.kill_after is Some
            &&& hooked == hooks_for(cause)
            &&& hook_matches(cause, config)
        },
    }
}

/// Do these signals and hooks lead to the outcome? A command that was stopped
/// has been collected: how it ended and what it used are known.
pub open spec fn leads_to(
    sent: Seq<Signal>,
    hooked: nat,
    result: RunResult,
    config: RunConfig,
) -> bool {
    match result {
        RunResult::Completed { .. } => sent =~= Seq::empty() && hooked == 0,
        RunResult::TimedOut { signal, killed, hook, status, rusage, .. } => {
            &&& signal == config.signal
            &&& status is Some
            &&& rusage is Some
            &&& hook is Some <==> config.on_timeout is Some
            &&& hooked == if hook is Some {
                1nat
            } else {
                0
            }
            &&& if killed {
                sent =~= seq![config.signal, Signal::SIGKILL] && config.kill_after is Some
            } else {
                sent =~= seq![config.signal]
            }
        },
        RunResult::MemoryLimitExceeded { signal, killed, status, rusage, .. } => {
            &&& signal == config.signal
            &&& status is Some
            &&& rusage is Some
            &&& hooked == 0
            &&& if killed {
                sent =~= seq![config.signal, Signal::SIGKILL] && config.kill_after is Some
            } else {
                sent =~= seq![config.signal]
            }
        },
        RunResult::SignalForwarded { signal, .. } => {
            ||| sent =~= seq![signal] && hooked == 0
            ||| sent =~= seq![config.signal, signal] && config.kill_after is Some && hooked == (
            if config.on_timeout is Some {
                1nat
            } else {
                0
            })
        },
    }
}

/// What has been sent and run, by where the monitor is.
spec fn accounted(
    phase: MonitorPhase,
    sent: Seq<Signal>,
    hooked: nat,
    config: RunConfig,
) -> bool {
    match phase {
        MonitorPhase::Starting | MonitorPhase::StartingThrottle | MonitorPhase::SayingNoThrottle
        | MonitorPhase::Waiting | MonitorPhase::SayingReason(_) => sent =~= Seq::empty() && hooked
            == 0,
        MonitorPhase::Hooking(_) => sent =~= Seq::empty() && hooked == 1 && config.on_timeout is Some,
        MonitorPhase::Saying(purpose) => may_precede(sent, hooked, purpose, config),
        MonitorPhase::Resuming(purpose) => may_precede(sent, hooked, purpose, config),
        MonitorPhase::Sending(purpose) => sent.len() > 0 && sent.last() == purpose.sends(config)
            && may_precede(sent.drop_last(), hooked, purpose, config),
        MonitorPhase::Reaping(purpose) => sent.len() > 0 && sent.last() == purpose.sends(config)
            && may_precede(sent.drop_last(), hooked, purpose, config),
        MonitorPhase::Grace(cause) => {
            &&& sent =~= seq![config.signal]
            &&& config.kill_after is Some
            &&& hooked == hooks_for(cause)
            &&& hook_matches(cause, config)
        },
        MonitorPhase::Marking(result) => leads_to(sent, hooked, result, config),
        MonitorPhase::Done => true,
    }
}

/// The signals after an action.
spec fn sent_then(sent: Seq<Signal>, action: MonitorAction) -> Seq<Signal> {
    match action {
        MonitorAction::Send { signal, .. } => sent.push(signal),
        _ => sent,
    }
}

/// The hooks after an action.
spec fn hooked_then(hooked: nat, action: MonitorAction) -> nat {
    if action is RunHook {
        hooked + 1
    } else {
        hooked
    }
}

/// A signal that is announced is accounted for.
proof fn lemma_announce_is_accounted(
    monitor: Monitor,
    purpose: Purpose,
    sent: Seq<Signal>,
    hooked: nat,
    config: RunConfig,
)
    requires
        may_precede(sent, hooked, purpose, config),
    ensures
        ({
            let (then, action) = monitor.announce(purpose, config);
            &&& accounted(then.phase, sent_then(sent, action), hooked_then(hooked, action), config)
            &&& action !is Return
        }),
        ({
            let (then, action) = monitor.let_go(purpose, config);
            &&& accounted(then.phase, sent_then(sent, action), hooked_then(hooked, action), config)
            &&& action !is Return
        }),
        ({
            let (then, action) = monitor.sending(purpose, config);
            &&& accounted(then.phase, sent_then(sent, action), hooked_then(hooked, action), config)
            &&& action !is Return
        }),
{
    assert(sent.push(purpose.sends(config)).drop_last() =~= sent);
}

/// One event keeps the account.
#[verifier::rlimit(60)]
proof fn lemma_step_is_accounted(
    monitor: Monitor,
    event: MonitorEvent,
    sent: Seq<Signal>,
    hooked: nat,
    config: RunConfig,
)
    requires
        monitor.awaits(event),
        accounted(monitor.phase, sent, hooked, config),
    ensures
        ({
            let (then, action) = monitor.next(event, config);
            &&& accounted(then.phase, sent_then(sent, action), hooked_then(hooked, action), config)
            &&& action matches MonitorAction::Return(Ok(result)) ==> leads_to(
                sent,
                hooked,
                result,
                config,
            )
        }),
{
    assert(sent.len() > 0 ==> sent =~= sent.drop_last().push(sent.last()));
    match (monitor.phase, event) {
        (MonitorPhase::Waiting, MonitorEvent::Waited(Ok(result))) => {
            match result {
                crate::wait::WaitResult::ReceivedSignal(signal) => {
                    lemma_announce_is_accounted(
                        monitor,
                        Purpose::Forward(signal),
                        sent,
                        hooked,
                        config,
                    );
                },
                crate::wait::WaitResult::MemoryLimitExceeded { limit_bytes, actual_bytes } => {
                    lemma_announce_is_accounted(
                        monitor,
                        Purpose::Stop(Cause::Memory { limit_bytes, actual_bytes }),
                        sent,
                        hooked,
                        config,
                    );
                },
                crate::wait::WaitResult::TimedOut(reason) => {
                    if config.on_timeout is None {
                        lemma_announce_is_accounted(
                            monitor,
                            Purpose::Stop(Cause::Timeout { reason, hook: None }),
                            sent,
                            hooked,
                            config,
                        );
                    }
                },
                _ => {},
            }
        },
        (MonitorPhase::SayingReason(reason), _) => {
            if config.on_timeout is None {
                lemma_announce_is_accounted(
                    monitor,
                    Purpose::Stop(Cause::Timeout { reason, hook: None }),
                    sent,
                    hooked,
                    config,
                );
            }
        },
        (MonitorPhase::Hooking(reason), MonitorEvent::HookRan(hook)) => {
            lemma_announce_is_accounted(
                monitor,
                Purpose::Stop(Cause::Timeout { reason, hook: Some(hook) }),
                sent,
                hooked,
                config,
            );
        },
        (MonitorPhase::Saying(purpose), _) => {
            lemma_announce_is_accounted(monitor, purpose, sent, hooked, config);
        },
        (MonitorPhase::Resuming(purpose), _) => {
            lemma_announce_is_accounted(monitor, purpose, sent, hooked, config);
        },
        (MonitorPhase::Grace(cause), MonitorEvent::Waited(Ok(result))) => {
            lemma_announce_is_accounted(monitor, Purpose::Kill(cause), sent, hooked, config);
            if result is ReceivedSignal && cause is Timeout {
                lemma_announce_is_accounted(
                    monitor,
                    Purpose::Forward(result->ReceivedSignal_0),
                    sent,
                    hooked,
                    config,
                );
            }
        },
        (MonitorPhase::Sending(_), _) => {},
        (MonitorPhase::Reaping(_), _) => {},
        (MonitorPhase::Marking(_), _) => {},
        _ => {},
    }
}

/// The account of a whole row of events.
proof fn lemma_is_accounted(pid: i32, events: Seq<MonitorEvent>, config: RunConfig)
    requires
        Monitor::begun(pid).answered_by(events, config),
    ensures
        accounted(
            Monitor::begun(pid).after(events, config).phase,
            Monitor::begun(pid).sent(events, config),
            Monitor::begun(pid).hooked(events, config),
            config,
        ),
    decreases events.len(),
{
    if events.len() > 0 {
        let monitor = Monitor::begun(pid);
        let before = events.drop_last();
        lemma_is_accounted(pid, before, config);
        lemma_step_is_accounted(
            monitor.after(before, config),
            events.last(),
            monitor.sent(before, config),
            monitor.hooked(before, config),
            config,
        );
    }
}

/// The outcome says what was done to the command. One that completed was sent
/// nothing. One that was stopped was sent the configured signal first, after
/// the hook, and `SIGKILL` exactly if it is said to have been killed, which
/// takes a grace period. A signal that was passed on was sent as it came.
pub proof fn law_outcome_tells_what_was_sent(
    pid: i32,
    events: Seq<MonitorEvent>,
    config: RunConfig,
    result: RunResult,
)
    requires
        events.len() > 0,
        Monitor::begun(pid).answered_by(events, config),
        Monitor::begun(pid).wants(events, config) == MonitorAction::Return(Ok(result)),
    ensures
        leads_to(
            Monitor::begun(pid).sent(events, config),
            Monitor::begun(pid).hooked(events, config),
            result,
            config,
        ),
{
    let monitor = Monitor::begun(pid);
    let before = events.drop_last();
    lemma_is_accounted(pid, before, config);
    lemma_step_is_accounted(
        monitor.after(before, config),
        events.last(),
        monitor.sent(before, config),
        monitor.hooked(before, config),
        config,
    );
}

/// Without a grace period the command is never killed: nothing but one signal
/// is ever sent.
pub proof fn law_no_kill_without_grace(pid: i32, events: Seq<MonitorEvent>, config: RunConfig)
    requires
        Monitor::begun(pid).answered_by(events, config),
        config.kill_after is None,
    ensures
        Monitor::begun(pid).sent(events, config).len() <= 1,
    decreases events.len(),
{
    if events.len() > 0 {
        let monitor = Monitor::begun(pid);
        law_no_kill_without_grace(pid, events.drop_last(), config);
        lemma_is_accounted(pid, events, config);
        lemma_is_accounted(pid, events.drop_last(), config);
    }
}

/// The hook runs once at most, only if there is one, and before anything is
/// sent. It runs for the command.
pub proof fn law_hook_runs_once_before_signals(
    pid: i32,
    events: Seq<MonitorEvent>,
    config: RunConfig,
)
    requires
        events.len() > 0,
        Monitor::begun(pid).answered_by(events, config),
    ensures
        Monitor::begun(pid).hooked(events, config) <= 1,
        Monitor::begun(pid).wants(events, config) is RunHook ==> config.on_timeout is Some
            && Monitor::begun(pid).sent(events, config).len() == 0,
        Monitor::begun(pid).wants(events, config) matches MonitorAction::RunHook {
            pid: hooked,
            hook,
        } ==> hooked == pid && config.on_timeout == Some(hook),
{
    let monitor = Monitor::begun(pid);
    lemma_hooked_once(pid, events, config);
    lemma_is_accounted(pid, events, config);
    lemma_is_accounted(pid, events.drop_last(), config);
    lemma_pid_is_kept(pid, events.drop_last(), config);
    let was = monitor.after(events.drop_last(), config);
    match was.phase {
        MonitorPhase::Waiting => {},
        MonitorPhase::SayingReason(_) => {},
        _ => {},
    }
}

proof fn lemma_pid_is_kept(pid: i32, events: Seq<MonitorEvent>, config: RunConfig)
    ensures
        Monitor::begun(pid).after(events, config).pid == pid,
    decreases events.len(),
{
    if events.len() > 0 {
        lemma_pid_is_kept(pid, events.drop_last(), config);
    }
}

proof fn lemma_hooked_once(pid: i32, events: Seq<MonitorEvent>, config: RunConfig)
    requires
        Monitor::begun(pid).answered_by(events, config),
    ensures
        Monitor::begun(pid).hooked(events, config) <= 1,
    decreases events.len(),
{
    if events.len() > 0 {
        let monitor = Monitor::begun(pid);
        let before = events.drop_last();
        lemma_hooked_once(pid, before, config);
        lemma_is_accounted(pid, before, config);
        match monitor.after(before, config).phase {
            MonitorPhase::Waiting => {},
            MonitorPhase::SayingReason(_) => {},
            MonitorPhase::Grace(_) => {},
            _ => {},
        }
    }
}

/// Where the command may be stopped, every signal is sent right after it was
/// let go on: it can always act on the signal. And once it has ended this is
/// noted before the outcome is returned.
pub proof fn law_resumed_before_signals(
    pid: i32,
    events: Seq<MonitorEvent>,
    config: RunConfig,
)
    requires
        events.len() > 0,
        Monitor::begun(pid).answered_by(events, config),
        Monitor::begun(pid).after(events, config).throttle is Some,
    ensures
        Monitor::begun(pid).wants(events, config) is Send ==> events.last() is Resumed,
        Monitor::begun(pid).wants(events, config) matches MonitorAction::Return(Ok(_))
            ==> events.last() is Marked,
{
    let was = Monitor::begun(pid).after(events.drop_last(), config);
    match (was.phase, events.last()) {
        (MonitorPhase::Waiting, _) => {},
        (MonitorPhase::Grace(_), _) => {},
        (MonitorPhase::Reaping(_), _) => {},
        _ => {},
    }
}

/// A quiet supervisor says nothing.
pub proof fn law_quiet_says_nothing(
    monitor: Monitor,
    event: MonitorEvent,
    config: RunConfig,
)
    requires
        monitor.awaits(event),
        config.quiet,
    ensures
        monitor.next(event, config).1 !is Say,
{
    match (monitor.phase, event) {
        (MonitorPhase::Waiting, _) => {},
        (MonitorPhase::Grace(_), _) => {},
        (MonitorPhase::Reaping(_), _) => {},
        _ => {},
    }
}

/// Every event brings the monitor closer to its end, so it always comes to it:
/// there are fifteen events at most.
pub proof fn law_monitor_comes_to_an_end(
    pid: i32,
    events: Seq<MonitorEvent>,
    config: RunConfig,
)
    requires
        Monitor::begun(pid).answered_by(events, config),
    ensures
        events.len() + Monitor::begun(pid).after(events, config).steps_left() <= 15,
    decreases events.len(),
{
    if events.len() > 0 {
        law_monitor_comes_to_an_end(pid, events.drop_last(), config);
        let was = Monitor::begun(pid).after(events.drop_last(), config);
        match (was.phase, events.last()) {
            (MonitorPhase::Waiting, _) => {},
            (MonitorPhase::Grace(_), _) => {},
            (MonitorPhase::Reaping(_), _) => {},
            _ => {},
        }
    }
}

impl Monitor {
    /// Is every wait in a row of events one that the monitor asked for?
    pub open spec fn waits_as_asked(
        self,
        events: Seq<MonitorEvent>,
        config: RunConfig,
        signal_fd: i32,
    ) -> bool
        decreases events.len(),
    {
        events.len() > 0 ==> {
            let was = self.after(events.drop_last(), config);
            &&& self.waits_as_asked(events.drop_last(), config, signal_fd)
            &&& events.last() matches MonitorEvent::Waited(result) ==> {
                &&& was.phase is Waiting ==> wait_returns(
                    was.main_setup(config),
                    signal_fd,
                    result,
                )
                &&& was.phase is Grace && config.kill_after is Some ==> wait_returns(
                    grace_setup(was.pid, config.kill_after->0, config.confine),
                    signal_fd,
                    result,
                )
            }
        }
    }
}

/// The limits that the configuration sets are the ones that count.
pub open spec fn within_config(cause: Cause, config: RunConfig) -> bool {
    match cause {
        Cause::Timeout { reason, .. } => reason is StdinIdle ==> config.stdin_timeout is Some,
        Cause::Memory { limit_bytes, actual_bytes } => config.limits.mem_bytes == Some(limit_bytes)
            && actual_bytes > limit_bytes,
    }
}

/// The outcome tells of no limit but those that the configuration sets.
pub open spec fn tells_within_config(result: RunResult, config: RunConfig) -> bool {
    match result {
        RunResult::TimedOut { reason, .. } => reason is StdinIdle ==> config.stdin_timeout is Some,
        RunResult::MemoryLimitExceeded { limit_bytes, actual_bytes, .. } =>
            config.limits.mem_bytes == Some(limit_bytes) && actual_bytes > limit_bytes,
        _ => true,
    }
}

/// What a monitor has in mind is within the configuration.
spec fn minds_config(phase: MonitorPhase, config: RunConfig) -> bool {
    match phase {
        MonitorPhase::SayingReason(reason) | MonitorPhase::Hooking(reason) => reason is StdinIdle
            ==> config.stdin_timeout is Some,
        MonitorPhase::Saying(Purpose::Stop(cause)) | MonitorPhase::Saying(Purpose::Kill(cause))
        | MonitorPhase::Resuming(Purpose::Stop(cause)) | MonitorPhase::Resuming(Purpose::Kill(cause))
        | MonitorPhase::Sending(Purpose::Stop(cause)) | MonitorPhase::Sending(Purpose::Kill(cause))
        | MonitorPhase::Reaping(Purpose::Stop(cause)) | MonitorPhase::Reaping(Purpose::Kill(cause))
        | MonitorPhase::Grace(cause) => within_config(cause, config),
        MonitorPhase::Marking(result) => tells_within_config(result, config),
        _ => true,
    }
}

#[verifier::rlimit(60)]
proof fn lemma_step_minds_config(
    monitor: Monitor,
    event: MonitorEvent,
    config: RunConfig,
    signal_fd: i32,
)
    requires
        monitor.awaits(event),
        minds_config(monitor.phase, config),
        event matches MonitorEvent::Waited(result) ==> (monitor.phase is Waiting
            ==> wait_returns(monitor.main_setup(config), signal_fd, result)),
    ensures
        minds_config(monitor.next(event, config).0.phase, config),
        monitor.next(event, config).1 matches MonitorAction::Return(Ok(result))
            ==> tells_within_config(result, config),
{
    match (monitor.phase, event) {
        (MonitorPhase::Waiting, MonitorEvent::Waited(result)) => {
            law_wait_tells_of_its_limits(monitor.main_setup(config), signal_fd, result);
        },
        (MonitorPhase::Grace(_), _) => {},
        (MonitorPhase::Reaping(_), _) => {},
        (MonitorPhase::Saying(_), _) => {},
        (MonitorPhase::Sending(_), _) => {},
        _ => {},
    }
}

proof fn lemma_minds_config(
    pid: i32,
    events: Seq<MonitorEvent>,
    config: RunConfig,
    signal_fd: i32,
)
    requires
        Monitor::begun(pid).answered_by(events, config),
        Monitor::begun(pid).waits_as_asked(events, config, signal_fd),
    ensures
        minds_config(Monitor::begun(pid).after(events, config).phase, config),
    decreases events.len(),
{
    if events.len() > 0 {
        lemma_minds_config(pid, events.drop_last(), config, signal_fd);
        lemma_step_minds_config(
            Monitor::begun(pid).after(events.drop_last(), config),
            events.last(),
            config,
            signal_fd,
        );
    }
}

/// Whatever happens in the waits that the monitor asks for, the outcome tells
/// only of limits that are configured: a command is said to use too much memory
/// only if it was found to use more than the configured limit, and to run out
/// of input only if an idle limit is configured.
pub proof fn law_outcome_tells_of_configured_limits(
    pid: i32,
    events: Seq<MonitorEvent>,
    config: RunConfig,
    signal_fd: i32,
    result: RunResult,
)
    requires
        events.len() > 0,
        Monitor::begun(pid).answered_by(events, config),
        Monitor::begun(pid).waits_as_asked(events, config, signal_fd),
        Monitor::begun(pid).wants(events, config) == MonitorAction::Return(Ok(result)),
    ensures
        tells_within_config(result, config),
{
    lemma_minds_config(pid, events.drop_last(), config, signal_fd);
    lemma_step_minds_config(
        Monitor::begun(pid).after(events.drop_last(), config),
        events.last(),
        config,
        signal_fd,
    );
}

/// Whatever a monitor counts, by itself or through a wait, it counts on the clock
/// that is configured.
pub proof fn law_monitor_counts_on_one_clock(
    pid: i32,
    events: Seq<MonitorEvent>,
    config: RunConfig,
)
    requires
        events.len() > 0,
        Monitor::begun(pid).answered_by(events, config),
    ensures
        Monitor::begun(pid).wants(events, config) matches MonitorAction::ReadClock { confine }
            ==> confine == config.confine,
        Monitor::begun(pid).wants(events, config) matches MonitorAction::Wait(setup)
            ==> setup.confine == config.confine,
{
    let was = Monitor::begun(pid).after(events.drop_last(), config);
    match was.phase {
        MonitorPhase::Starting => {},
        MonitorPhase::Waiting => {},
        MonitorPhase::Sending(_) => {},
        MonitorPhase::Grace(_) => {},
        _ => {},
    }
}

} // verus!

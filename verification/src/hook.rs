//! The on-timeout hook: a shell command that runs before the command is told
//! to stop.
//!
//! Whatever becomes of the hook, the command is stopped: nothing here fails.

use vstd::prelude::*;

use crate::args::Confine;
use crate::clock::{clock_or, reading_or};
use crate::command::SpawnRequest;
use crate::config::RunConfig;
use crate::error::{SpawnError, TimeoutError};
use crate::kqueue::{
    exit_filter, timer_filter, watch_exit, watch_timer, KernelEvent, KeventChange, EVFILT_PROC,
    HOOK_TIMER,
};
use crate::notice::{HookError, Notice};
use crate::outcome::HookResult;
use crate::process::RawExitStatus;
use crate::signal::Signal;
use crate::sys::{eintr, esrch};
use crate::text::{chars_of, push_signed, signed_decimal};
use crate::time::{
    advance_ns, clamp_u64, deadline_reached, duration_to_ns, elapsed_ms, left_until, millis_since,
    min_of, min_u64, reached, remaining_ns, timer_ns, Duration, MAX_TIMER_NS,
};

verus! {

/// The hook with `%p` replaced by the command's number and `%%` by one `%`,
/// from left to right.
pub open spec fn expanded(hook: Seq<char>, pid: int) -> Seq<char>
    decreases hook.len(),
{
    if hook.len() == 0 {
        Seq::empty()
    } else if hook.len() > 1 && hook[0] == '%' && hook[1] == 'p' {
        signed_decimal(pid) + expanded(hook.skip(2), pid)
    } else if hook.len() > 1 && hook[0] == '%' && hook[1] == '%' {
        seq!['%'] + expanded(hook.skip(2), pid)
    } else {
        seq![hook[0]] + expanded(hook.skip(1), pid)
    }
}

/// The hook with `%p` replaced by the command's number and `%%` by one `%`.
pub fn expand_hook(hook: &str, pid: i32) -> (command: String)
    ensures
        command@ == expanded(hook@, pid as int),
{
    let v: Vec<char> = chars_of(hook);
    let mut command: String = String::new();
    let mut i: usize = 0;
    assert(v@.skip(0) =~= v@);
    while i < v.len()
        invariant
            i <= v.len(),
            v@ == hook@,
            command@ + expanded(v@.skip(i as int), pid as int) == expanded(hook@, pid as int),
        decreases v.len() - i,
    {
        let ghost before = command@;
        let ghost rest = v@.skip(i as int);
        if i + 1 < v.len() && v[i] == '%' && v[i + 1] == 'p' {
            assert(rest.skip(2) =~= v@.skip(i + 2));
            push_signed(&mut command, pid);
            assert(before + (signed_decimal(pid as int) + expanded(rest.skip(2), pid as int))
                =~= command@ + expanded(rest.skip(2), pid as int));
            i += 2;
        } else if i + 1 < v.len() && v[i] == '%' && v[i + 1] == '%' {
            assert(rest.skip(2) =~= v@.skip(i + 2));
            command.push('%');
            assert(before + (seq!['%'] + expanded(rest.skip(2), pid as int)) =~= command@
                + expanded(rest.skip(2), pid as int));
            i += 2;
        } else {
            assert(rest.skip(1) =~= v@.skip(i + 1));
            command.push(v[i]);
            assert(before + (seq![rest[0]] + expanded(rest.skip(1), pid as int)) =~= command@
                + expanded(rest.skip(1), pid as int));
            i += 1;
        }
    }
    assert(v@.skip(i as int) =~= Seq::empty());
    assert(command@ + Seq::<char>::empty() =~= command@);
    command
}

/// A hook without `%` is run as it is.
pub proof fn law_plain_hook_is_kept(hook: Seq<char>, pid: int)
    requires
        forall|i: int| 0 <= i < hook.len() ==> #[trigger] hook[i] != '%',
    ensures
        expanded(hook, pid) == hook,
    decreases hook.len(),
{
    if hook.len() > 0 {
        let rest = hook.skip(1);
        assert forall|i: int| 0 <= i < rest.len() implies #[trigger] rest[i] != '%' by {
            assert(rest[i] == hook[i + 1]);
        }
        law_plain_hook_is_kept(rest, pid);
        assert(seq![hook[0]] + rest =~= hook);
    }
}

/// What came of waiting for the hook.
#[derive(Debug)]
pub enum HookWaitResult {
    Exited(RawExitStatus),
    TimedOut,
    Error(HookError),
}

/// What a hook's wait does when it has closed its queue.
#[derive(Clone, Copy, Debug, PartialEq, Eq, Structural)]
pub enum HookAfterClose {
    TimedOut,
    KeventFailed(i32),
    RegistrationFailed(i32),
    /// The hook is gone: collect it without blocking, if possible.
    TryReap,
    /// The hook exited, or is gone: collect it.
    Reap,
}

/// What a hook's wait is in the middle of.
#[derive(Clone, Copy, Debug, PartialEq, Eq, Structural)]
pub enum HookWaitPhase {
    Starting(Duration),
    Opening,
    LoopClock,
    Waiting,
    Closing(HookAfterClose),
    TryReaping,
    Reaping,
    Done,
}

/// What a hook's wait wants done.
#[derive(Debug)]
pub enum HookWaitAction {
    /// Read the clock that counts.
    ReadClock { confine: Confine },
    /// Open an event queue.
    OpenQueue,
    /// Hand the queue [`HookWait::changes`] for `wake_ns` and wait for one
    /// event.
    Submit { queue: i32, wake_ns: u64 },
    /// Close the event queue.
    CloseQueue { queue: i32 },
    /// Collect the hook without blocking.
    TryReap,
    /// Collect the hook.
    Reap,
    /// The wait is over.
    Return(HookWaitResult),
}

/// What came of a [`HookWaitAction`].
#[derive(Debug)]
pub enum HookWaitEvent {
    /// The time in nanoseconds, as [`crate::clock::precise_now_ns`] tells it of
    /// the clock asked for.
    Clock(Result<u64, TimeoutError>),
    /// The queue; negative with an error number if there is none.
    Queue { fd: i32, errno: i32 },
    /// An event, or the error number.
    Kernel(Result<KernelEvent, i32>),
    Closed,
    TryReaped(Result<Option<RawExitStatus>, SpawnError>),
    Reaped(Result<RawExitStatus, SpawnError>),
}

/// A wait for the hook.
#[derive(Clone, Copy, Debug, PartialEq, Eq, Structural)]
pub struct HookWait {
    pub phase: HookWaitPhase,
    pub pid: i32,
    pub queue: i32,
    pub deadline_ns: u64,
    /// The clock that counts.
    pub confine: Confine,
}

/// What the hook's wait does, as a function of what it knows.
impl HookWait {
    /// Is `event` what came of the action last asked for?
    pub open spec fn awaits(self, event: HookWaitEvent) -> bool {
        match self.phase {
            HookWaitPhase::Starting(_) => event is Clock,
            HookWaitPhase::Opening => event is Queue,
            HookWaitPhase::LoopClock => event is Clock,
            HookWaitPhase::Waiting => event is Kernel,
            HookWaitPhase::Closing(_) => event is Closed,
            HookWaitPhase::TryReaping => event is TryReaped,
            HookWaitPhase::Reaping => event is Reaped,
            HookWaitPhase::Done => false,
        }
    }

    /// A wait that has asked for the time.
    pub open spec fn begun(pid: i32, limit: Duration, confine: Confine) -> HookWait {
        HookWait {
            phase: HookWaitPhase::Starting(limit),
            pid,
            queue: (-1) as i32,
            deadline_ns: u64::MAX,
            confine,
        }
    }

    /// The wait with another thing to do.
    pub open spec fn at(self, phase: HookWaitPhase) -> HookWait {
        HookWait { phase, ..self }
    }

    /// The wait is over.
    pub open spec fn over(self, result: HookWaitResult) -> (HookWait, HookWaitAction) {
        (self.at(HookWaitPhase::Done), HookWaitAction::Return(result))
    }

    /// The wait closes its queue before it goes on.
    pub open spec fn closing(self, then: HookAfterClose) -> (HookWait, HookWaitAction) {
        (
            self.at(HookWaitPhase::Closing(then)),
            HookWaitAction::CloseQueue { queue: self.queue },
        )
    }

    /// The wait looks at the clock and waits again.
    pub open spec fn again(self) -> (HookWait, HookWaitAction) {
        (self.at(HookWaitPhase::LoopClock), HookWaitAction::ReadClock { confine: self.confine })
    }

    /// It is `now`: give up if time has run out, or else sleep until it has.
    pub open spec fn turn(self, now: u64) -> (HookWait, HookWaitAction) {
        if reached(now, self.deadline_ns) {
            self.closing(HookAfterClose::TimedOut)
        } else {
            (
                self.at(HookWaitPhase::Waiting),
                HookWaitAction::Submit {
                    queue: self.queue,
                    wake_ns: min_of(
                        left_until(now, self.deadline_ns) as int,
                        MAX_TIMER_NS as int,
                    ) as u64,
                },
            )
        }
    }

    /// Waiting on the queue failed.
    pub open spec fn after_failure(self, errno: i32) -> (HookWait, HookWaitAction) {
        if errno == 4 {
            self.again()
        } else if errno == 3 {
            self.closing(HookAfterClose::TryReap)
        } else {
            self.closing(HookAfterClose::KeventFailed(errno))
        }
    }

    /// The queue reported an event.
    pub open spec fn after_event(self, event: KernelEvent) -> (HookWait, HookWaitAction) {
        if event.failed() {
            if event.error() == 3 {
                self.closing(HookAfterClose::Reap)
            } else {
                self.closing(HookAfterClose::RegistrationFailed(event.error()))
            }
        } else if event.filter == EVFILT_PROC {
            self.closing(HookAfterClose::Reap)
        } else {
            self.closing(HookAfterClose::TimedOut)
        }
    }

    /// The filters to submit.
    pub open spec fn filters(self, wake_ns: u64) -> Seq<KeventChange> {
        seq![exit_filter(self.pid), timer_filter(HOOK_TIMER, wake_ns)]
    }

    /// What the wait knows and wants after an event. A clock that cannot be
    /// read counts as the start at first, and as the end afterwards.
    pub open spec fn next(self, event: HookWaitEvent) -> (HookWait, HookWaitAction) {
        match (self.phase, event) {
            (HookWaitPhase::Starting(limit), HookWaitEvent::Clock(reading)) => (
                HookWait {
                    phase: HookWaitPhase::Opening,
                    deadline_ns: clamp_u64(clock_or(reading, 0) + timer_ns(limit)),
                    ..self
                },
                HookWaitAction::OpenQueue,
            ),
            (HookWaitPhase::Opening, HookWaitEvent::Queue { fd, errno }) => if fd < 0 {
                self.over(HookWaitResult::Error(HookError::KqueueFailed(errno)))
            } else {
                HookWait { queue: fd, ..self }.again()
            },
            (HookWaitPhase::LoopClock, HookWaitEvent::Clock(reading)) => self.turn(
                clock_or(reading, self.deadline_ns),
            ),
            (HookWaitPhase::Waiting, HookWaitEvent::Kernel(Err(errno))) => self.after_failure(
                errno,
            ),
            (HookWaitPhase::Waiting, HookWaitEvent::Kernel(Ok(event))) => self.after_event(event),
            (HookWaitPhase::Closing(then), HookWaitEvent::Closed) => match then {
                HookAfterClose::TimedOut => self.over(HookWaitResult::TimedOut),
                HookAfterClose::KeventFailed(errno) => self.over(
                    HookWaitResult::Error(HookError::KeventFailed(errno)),
                ),
                HookAfterClose::RegistrationFailed(errno) => self.over(
                    HookWaitResult::Error(HookError::RegistrationFailed(errno)),
                ),
                HookAfterClose::TryReap => (
                    self.at(HookWaitPhase::TryReaping),
                    HookWaitAction::TryReap,
                ),
                HookAfterClose::Reap => (self.at(HookWaitPhase::Reaping), HookWaitAction::Reap),
            },
            (HookWaitPhase::TryReaping, HookWaitEvent::TryReaped(Ok(Some(status)))) => self.over(
                HookWaitResult::Exited(status),
            ),
            (HookWaitPhase::TryReaping, HookWaitEvent::TryReaped(Ok(None))) => (
                self.at(HookWaitPhase::Reaping),
                HookWaitAction::Reap,
            ),
            (HookWaitPhase::TryReaping, HookWaitEvent::TryReaped(Err(e))) => self.over(
                HookWaitResult::Error(HookError::Reap(e)),
            ),
            (HookWaitPhase::Reaping, HookWaitEvent::Reaped(Ok(status))) => self.over(
                HookWaitResult::Exited(status),
            ),
            (HookWaitPhase::Reaping, HookWaitEvent::Reaped(Err(e))) => self.over(
                HookWaitResult::Error(HookError::Reap(e)),
            ),
            _ => self.again(),
        }
    }
}

/// Waiting for the hook, one action at a time.
impl HookWait {
    /// Begins to wait for the hook `pid`, for `limit` at most by the clock that
    /// counts.
    pub fn start(pid: i32, limit: Duration, confine: Confine) -> (begun: (
        HookWait,
        HookWaitAction,
    ))
        ensures
            begun == (
                HookWait::begun(pid, limit, confine),
                HookWaitAction::ReadClock { confine },
            ),
    {
        (
            HookWait {
                phase: HookWaitPhase::Starting(limit),
                pid,
                queue: -1,
                deadline_ns: u64::MAX,
                confine,
            },
            HookWaitAction::ReadClock { confine },
        )
    }

    /// Goes on with what came of the action last asked for.
    pub fn step(self, event: HookWaitEvent) -> (next: (HookWait, HookWaitAction))
        requires
            self.awaits(event),
        ensures
            next == self.next(event),
    {
        match (self.phase, event) {
            (HookWaitPhase::Starting(limit), HookWaitEvent::Clock(reading)) => (
                HookWait {
                    phase: HookWaitPhase::Opening,
                    deadline_ns: advance_ns(reading_or(reading, 0), duration_to_ns(limit)),
                    ..self
                },
                HookWaitAction::OpenQueue,
            ),
            (HookWaitPhase::Opening, HookWaitEvent::Queue { fd, errno }) => {
                if fd < 0 {
                    self.finish(HookWaitResult::Error(HookError::KqueueFailed(errno)))
                } else {
                    HookWait { queue: fd, ..self }.wait_again()
                }
            },
            (HookWaitPhase::LoopClock, HookWaitEvent::Clock(reading)) => {
                self.take_turn(reading_or(reading, self.deadline_ns))
            },
            (HookWaitPhase::Waiting, HookWaitEvent::Kernel(Err(errno))) => {
                if errno == eintr() {
                    self.wait_again()
                } else if errno == esrch() {
                    self.close_queue(HookAfterClose::TryReap)
                } else {
                    self.close_queue(HookAfterClose::KeventFailed(errno))
                }
            },
            (HookWaitPhase::Waiting, HookWaitEvent::Kernel(Ok(event))) => {
                self.handle_event(event)
            },
            (HookWaitPhase::Closing(then), HookWaitEvent::Closed) => {
                match then {
                    HookAfterClose::TimedOut => self.finish(HookWaitResult::TimedOut),
                    HookAfterClose::KeventFailed(errno) => self.finish(
                        HookWaitResult::Error(HookError::KeventFailed(errno)),
                    ),
                    HookAfterClose::RegistrationFailed(errno) => self.finish(
                        HookWaitResult::Error(HookError::RegistrationFailed(errno)),
                    ),
                    HookAfterClose::TryReap => (
                        self.in_phase(HookWaitPhase::TryReaping),
                        HookWaitAction::TryReap,
                    ),
                    HookAfterClose::Reap => (
                        self.in_phase(HookWaitPhase::Reaping),
                        HookWaitAction::Reap,
                    ),
                }
            },
            (HookWaitPhase::TryReaping, HookWaitEvent::TryReaped(Ok(Some(status)))) => {
                self.finish(HookWaitResult::Exited(status))
            },
            (HookWaitPhase::TryReaping, HookWaitEvent::TryReaped(Ok(None))) => (
                self.in_phase(HookWaitPhase::Reaping),
                HookWaitAction::Reap,
            ),
            (HookWaitPhase::TryReaping, HookWaitEvent::TryReaped(Err(e))) => {
                self.finish(HookWaitResult::Error(HookError::Reap(e)))
            },
            (HookWaitPhase::Reaping, HookWaitEvent::Reaped(Ok(status))) => {
                self.finish(HookWaitResult::Exited(status))
            },
            (HookWaitPhase::Reaping, HookWaitEvent::Reaped(Err(e))) => {
                self.finish(HookWaitResult::Error(HookError::Reap(e)))
            },
            _ => self.wait_again(),
        }
    }

    /// The filters to submit with a timer of `wake_ns`.
    pub fn changes(&self, wake_ns: u64) -> (changes: Vec<KeventChange>)
        ensures
            changes@ == self.filters(wake_ns),
    {
        let mut changes: Vec<KeventChange> = Vec::new();
        changes.push(watch_exit(self.pid));
        changes.push(watch_timer(HOOK_TIMER, wake_ns));
        changes
    }

    fn in_phase(self, phase: HookWaitPhase) -> (wait: HookWait)
        ensures
            wait == self.at(phase),
    {
        HookWait { phase, ..self }
    }

    fn finish(self, result: HookWaitResult) -> (next: (HookWait, HookWaitAction))
        ensures
            next == self.over(result),
    {
        (self.in_phase(HookWaitPhase::Done), HookWaitAction::Return(result))
    }

    fn close_queue(self, then: HookAfterClose) -> (next: (HookWait, HookWaitAction))
        ensures
            next == self.closing(then),
    {
        (
            self.in_phase(HookWaitPhase::Closing(then)),
            HookWaitAction::CloseQueue { queue: self.queue },
        )
    }

    fn wait_again(self) -> (next: (HookWait, HookWaitAction))
        ensures
            next == self.again(),
    {
        (
            self.in_phase(HookWaitPhase::LoopClock),
            HookWaitAction::ReadClock { confine: self.confine },
        )
    }

    fn take_turn(self, now: u64) -> (next: (HookWait, HookWaitAction))
        ensures
            next == self.turn(now),
    {
        if deadline_reached(now, self.deadline_ns) {
            self.close_queue(HookAfterClose::TimedOut)
        } else {
            let wake_ns: u64 = min_u64(remaining_ns(now, self.deadline_ns), MAX_TIMER_NS);
            (
                self.in_phase(HookWaitPhase::Waiting),
                HookWaitAction::Submit { queue: self.queue, wake_ns },
            )
        }
    }

    fn handle_event(self, event: KernelEvent) -> (next: (HookWait, HookWaitAction))
        ensures
            next == self.after_event(event),
    {
        if event.is_error() {
            let code: i32 = event.error_number();
            if code == esrch() {
                self.close_queue(HookAfterClose::Reap)
            } else {
                self.close_queue(HookAfterClose::RegistrationFailed(code))
            }
        } else if event.filter == EVFILT_PROC {
            self.close_queue(HookAfterClose::Reap)
        } else {
            self.close_queue(HookAfterClose::TimedOut)
        }
    }
}

impl SpawnRequest {
    /// Is this the start of a hook: `sh -c` with the expanded hook, in a process
    /// group of its own and without limits?
    pub open spec fn runs_hook(self, hook: Seq<char>, pid: int) -> bool {
        &&& self.command@ == "sh"@
        &&& self.args@.len() == 2
        &&& self.args@[0]@ == "-c"@
        &&& self.args@[1]@ == expanded(hook, pid)
        &&& self.use_process_group
        &&& self.limits is None
    }
}

/// The start of a hook: `sh -c` with the expanded hook, in a process group of
/// its own and without limits.
pub fn hook_request(hook: &str, pid: i32) -> (request: SpawnRequest)
    ensures
        request.command@ == "sh"@,
        request.args@.len() == 2,
        request.args@[0]@ == "-c"@,
        request.args@[1]@ == expanded(hook@, pid as int),
        request.use_process_group,
        request.limits is None,
{
    let mut args: Vec<String> = Vec::new();
    args.push("-c".to_owned());
    args.push(expand_hook(hook, pid));
    SpawnRequest { command: "sh".to_owned(), args, use_process_group: true, limits: None }
}

/// What a run of the hook is in the middle of. What is to be started is kept
/// until it is handed out.
#[derive(Debug)]
pub enum HookPhase {
    Starting { command: String, request: SpawnRequest },
    Announcing { request: SpawnRequest },
    Spawning,
    SayingNotStarted,
    ReadingNotStarted,
    Waiting,
    Reading(HookWaitResult),
    SayingEnd(HookResult),
    SayingTimeout(u64),
    Killing(u64),
    Reaping(u64),
    Done,
}

/// What a run of the hook wants done.
#[derive(Debug)]
pub enum HookAction {
    /// Read the clock that counts.
    ReadClock { confine: Confine },
    /// Start the hook.
    Spawn(SpawnRequest),
    /// Wait for the hook, to the end.
    Wait { pid: i32, limit: Duration, confine: Confine },
    /// Say something.
    Say(Notice),
    /// Send a signal to the hook and to all that is in its process group.
    KillGroup { pid: i32, signal: Signal },
    /// Collect the hook.
    Reap { pid: i32 },
    /// It is over.
    Return(HookResult),
}

/// What came of a [`HookAction`].
#[derive(Debug)]
pub enum HookEvent {
    /// The time in nanoseconds, as [`crate::clock::precise_now_ns`] tells it of
    /// the clock asked for.
    Clock(Result<u64, TimeoutError>),
    Said,
    /// The hook's number.
    Spawned(Result<i32, SpawnError>),
    Waited(HookWaitResult),
    Killed,
    Reaped,
}

/// A run of the hook.
#[derive(Debug)]
pub struct HookRun {
    pub phase: HookPhase,
    pub start_ns: u64,
    pub hook_pid: i32,
}

/// A hook that did not start.
pub open spec fn not_started(elapsed_ms: u64) -> HookResult {
    HookResult { ran: false, exit_code: None, timed_out: false, elapsed_ms }
}

/// A hook that was killed for taking too long.
pub open spec fn killed_hook(elapsed_ms: u64) -> HookResult {
    HookResult { ran: true, exit_code: None, timed_out: true, elapsed_ms }
}

/// A hook that ended, with an exit code if that is known.
pub open spec fn ended_hook(exit_code: Option<i32>, elapsed_ms: u64) -> HookResult {
    HookResult { ran: true, exit_code, timed_out: false, elapsed_ms }
}

/// What a run of the hook does, as a function of what it knows.
impl HookRun {
    /// Is `event` what came of the action last asked for?
    pub open spec fn awaits(self, event: HookEvent) -> bool {
        match self.phase {
            HookPhase::Starting { .. } => event is Clock,
            HookPhase::Announcing { .. } => event is Said,
            HookPhase::Spawning => event is Spawned,
            HookPhase::SayingNotStarted => event is Said,
            HookPhase::ReadingNotStarted => event is Clock,
            HookPhase::Waiting => event is Waited,
            HookPhase::Reading(_) => event is Clock,
            HookPhase::SayingEnd(_) => event is Said,
            HookPhase::SayingTimeout(_) => event is Said,
            HookPhase::Killing(_) => event is Killed,
            HookPhase::Reaping(_) => event is Reaped,
            HookPhase::Done => false,
        }
    }

    /// Has the run asked for the time and done nothing more, with the start of
    /// `hook` for the command `pid` in hand?
    pub open spec fn begins(self, hook: Seq<char>, pid: int) -> bool {
        &&& self.start_ns == 0
        &&& self.hook_pid == 0
        &&& self.phase matches HookPhase::Starting { command, request }
        &&& command@ == expanded(hook, pid)
        &&& request.runs_hook(hook, pid)
    }

    /// The run with another thing to do.
    pub open spec fn at(self, phase: HookPhase) -> HookRun {
        HookRun { phase, ..self }
    }

    /// It is over.
    pub open spec fn over(self, result: HookResult) -> (HookRun, HookAction) {
        (self.at(HookPhase::Done), HookAction::Return(result))
    }

    /// The hook takes too long.
    pub open spec fn killing(self, elapsed_ms: u64) -> (HookRun, HookAction) {
        (
            self.at(HookPhase::Killing(elapsed_ms)),
            HookAction::KillGroup { pid: self.hook_pid, signal: Signal::SIGKILL },
        )
    }

    /// The wait for the hook took `elapsed_ms`.
    pub open spec fn after_wait(
        self,
        result: HookWaitResult,
        elapsed_ms: u64,
        config: RunConfig,
    ) -> (HookRun, HookAction) {
        match result {
            HookWaitResult::Exited(status) => {
                let end = ended_hook(status.exit_code(), elapsed_ms);
                if config.loud() && (status.exit_code() matches Some(code) && code != 0) {
                    (
                        self.at(HookPhase::SayingEnd(end)),
                        HookAction::Say(Notice::HookExited(status.exit_code()->0)),
                    )
                } else {
                    self.over(end)
                }
            },
            HookWaitResult::TimedOut => if config.loud() {
                (
                    self.at(HookPhase::SayingTimeout(elapsed_ms)),
                    HookAction::Say(Notice::HookTimedOut),
                )
            } else {
                self.killing(elapsed_ms)
            },
            HookWaitResult::Error(e) => {
                let end = ended_hook(None, elapsed_ms);
                if config.loud() {
                    (
                        self.at(HookPhase::SayingEnd(end)),
                        HookAction::Say(Notice::HookWaitFailed(e)),
                    )
                } else {
                    self.over(end)
                }
            },
        }
    }

    /// What the run knows and wants after an event. A clock that cannot be read
    /// counts as zero.
    pub open spec fn next(self, event: HookEvent, config: RunConfig) -> (HookRun, HookAction) {
        match (self.phase, event) {
            (HookPhase::Starting { command, request }, HookEvent::Clock(reading)) => {
                let started = HookRun { start_ns: clock_or(reading, 0), ..self };
                if config.loud() {
                    (
                        started.at(HookPhase::Announcing { request }),
                        HookAction::Say(Notice::HookRunning(command)),
                    )
                } else {
                    (started.at(HookPhase::Spawning), HookAction::Spawn(request))
                }
            },
            (HookPhase::Announcing { request }, HookEvent::Said) => (
                self.at(HookPhase::Spawning),
                HookAction::Spawn(request),
            ),
            (HookPhase::Spawning, HookEvent::Spawned(Ok(pid))) => (
                HookRun { phase: HookPhase::Waiting, hook_pid: pid, ..self },
                HookAction::Wait {
                    pid,
                    limit: config.on_timeout_limit,
                    confine: config.confine,
                },
            ),
            (HookPhase::Spawning, HookEvent::Spawned(Err(e))) => if config.loud() {
                (
                    self.at(HookPhase::SayingNotStarted),
                    HookAction::Say(Notice::HookNotStarted(e)),
                )
            } else {
                (
                    self.at(HookPhase::ReadingNotStarted),
                    HookAction::ReadClock { confine: config.confine },
                )
            },
            (HookPhase::SayingNotStarted, HookEvent::Said) => (
                self.at(HookPhase::ReadingNotStarted),
                HookAction::ReadClock { confine: config.confine },
            ),
            (HookPhase::ReadingNotStarted, HookEvent::Clock(reading)) => self.over(
                not_started(millis_since(self.start_ns, clock_or(reading, 0))),
            ),
            (HookPhase::Waiting, HookEvent::Waited(result)) => (
                self.at(HookPhase::Reading(result)),
                HookAction::ReadClock { confine: config.confine },
            ),
            (HookPhase::Reading(result), HookEvent::Clock(reading)) => self.after_wait(
                result,
                millis_since(self.start_ns, clock_or(reading, 0)),
                config,
            ),
            (HookPhase::SayingEnd(end), HookEvent::Said) => self.over(end),
            (HookPhase::SayingTimeout(elapsed_ms), HookEvent::Said) => self.killing(elapsed_ms),
            (HookPhase::Killing(elapsed_ms), HookEvent::Killed) => (
                self.at(HookPhase::Reaping(elapsed_ms)),
                HookAction::Reap { pid: self.hook_pid },
            ),
            (HookPhase::Reaping(elapsed_ms), HookEvent::Reaped) => self.over(
                killed_hook(elapsed_ms),
            ),
            _ => (self, HookAction::ReadClock { confine: config.confine }),
        }
    }
}

/// Running the hook, one action at a time.
impl HookRun {
    /// Begins to run `hook` for the command `pid`.
    pub fn start(hook: &str, pid: i32, config: &RunConfig) -> (begun: (HookRun, HookAction))
        ensures
            begun.0.begins(hook@, pid as int),
            begun.1 == (HookAction::ReadClock { confine: config.confine }),
    {
        let request = hook_request(hook, pid);
        let command = request.args[1].clone();
        let phase = HookPhase::Starting { command, request };
        (
            HookRun { phase, start_ns: 0, hook_pid: 0 },
            HookAction::ReadClock { confine: config.confine },
        )
    }

    /// Goes on with what came of the action last asked for.
    pub fn step(self, event: HookEvent, config: &RunConfig) -> (next: (HookRun, HookAction))
        requires
            self.awaits(event),
        ensures
            next == self.next(event, *config),
    {
        let HookRun { phase, start_ns, hook_pid } = self;
        match (phase, event) {
            (HookPhase::Starting { command, request }, HookEvent::Clock(reading)) => {
                let start_ns: u64 = reading_or(reading, 0);
                if config.is_loud() {
                    (
                        HookRun { phase: HookPhase::Announcing { request }, start_ns, hook_pid },
                        HookAction::Say(Notice::HookRunning(command)),
                    )
                } else {
                    (
                        HookRun { phase: HookPhase::Spawning, start_ns, hook_pid },
                        HookAction::Spawn(request),
                    )
                }
            },
            (HookPhase::Announcing { request }, HookEvent::Said) => (
                HookRun { phase: HookPhase::Spawning, start_ns, hook_pid },
                HookAction::Spawn(request),
            ),
            (HookPhase::Spawning, HookEvent::Spawned(Ok(pid))) => (
                HookRun { phase: HookPhase::Waiting, start_ns, hook_pid: pid },
                HookAction::Wait {
                    pid,
                    limit: config.on_timeout_limit,
                    confine: config.confine,
                },
            ),
            (HookPhase::Spawning, HookEvent::Spawned(Err(e))) => {
                if config.is_loud() {
                    (
                        HookRun { phase: HookPhase::SayingNotStarted, start_ns, hook_pid },
                        HookAction::Say(Notice::HookNotStarted(e)),
                    )
                } else {
                    (
                        HookRun { phase: HookPhase::ReadingNotStarted, start_ns, hook_pid },
                        HookAction::ReadClock { confine: config.confine },
                    )
                }
            },
            (HookPhase::SayingNotStarted, HookEvent::Said) => (
                HookRun { phase: HookPhase::ReadingNotStarted, start_ns, hook_pid },
                HookAction::ReadClock { confine: config.confine },
            ),
            (HookPhase::ReadingNotStarted, HookEvent::Clock(reading)) => {
                let elapsed_ms: u64 = elapsed_ms(start_ns, reading_or(reading, 0));
                let end = HookResult {
                    ran: false,
                    exit_code: None,
                    timed_out: false,
                    elapsed_ms,
                };
                finish_hook(start_ns, hook_pid, end)
            },
            (HookPhase::Waiting, HookEvent::Waited(result)) => (
                HookRun { phase: HookPhase::Reading(result), start_ns, hook_pid },
                HookAction::ReadClock { confine: config.confine },
            ),
            (HookPhase::Reading(result), HookEvent::Clock(reading)) => {
                let elapsed_ms: u64 = elapsed_ms(start_ns, reading_or(reading, 0));
                handle_hook_wait(start_ns, hook_pid, result, elapsed_ms, config)
            },
            (HookPhase::SayingEnd(end), HookEvent::Said) => finish_hook(start_ns, hook_pid, end),
            (HookPhase::SayingTimeout(elapsed_ms), HookEvent::Said) => (
                HookRun { phase: HookPhase::Killing(elapsed_ms), start_ns, hook_pid },
                HookAction::KillGroup { pid: hook_pid, signal: Signal::SIGKILL },
            ),
            (HookPhase::Killing(elapsed_ms), HookEvent::Killed) => (
                HookRun { phase: HookPhase::Reaping(elapsed_ms), start_ns, hook_pid },
                HookAction::Reap { pid: hook_pid },
            ),
            (HookPhase::Reaping(elapsed_ms), HookEvent::Reaped) => {
                let end = HookResult { ran: true, exit_code: None, timed_out: true, elapsed_ms };
                finish_hook(start_ns, hook_pid, end)
            },
            (phase, _) => (
                HookRun { phase, start_ns, hook_pid },
                HookAction::ReadClock { confine: config.confine },
            ),
        }
    }
}

fn finish_hook(start_ns: u64, hook_pid: i32, end: HookResult) -> (next: (HookRun, HookAction))
    ensures
        next == (
            (HookRun { phase: HookPhase::Done, start_ns, hook_pid }),
            HookAction::Return(end),
        ),
{
    (HookRun { phase: HookPhase::Done, start_ns, hook_pid }, HookAction::Return(end))
}

fn handle_hook_wait(
    start_ns: u64,
    hook_pid: i32,
    result: HookWaitResult,
    elapsed_ms: u64,
    config: &RunConfig,
) -> (next: (HookRun, HookAction))
    ensures
        forall|phase: HookPhase|
            next == (#[trigger] (HookRun { phase, start_ns, hook_pid }).after_wait(
                result,
                elapsed_ms,
                *config,
            )),
{
    match result {
        HookWaitResult::Exited(status) => {
            let exit_code: Option<i32> = status.code();
            let end = HookResult { ran: true, exit_code, timed_out: false, elapsed_ms };
            if config.is_loud() {
                if let Some(code) = exit_code {
                    if code != 0 {
                        return (
                            HookRun { phase: HookPhase::SayingEnd(end), start_ns, hook_pid },
                            HookAction::Say(Notice::HookExited(code)),
                        );
                    }
                }
            }
            finish_hook(start_ns, hook_pid, end)
        },
        HookWaitResult::TimedOut => {
            if config.is_loud() {
                (
                    HookRun { phase: HookPhase::SayingTimeout(elapsed_ms), start_ns, hook_pid },
                    HookAction::Say(Notice::HookTimedOut),
                )
            } else {
                (
                    HookRun { phase: HookPhase::Killing(elapsed_ms), start_ns, hook_pid },
                    HookAction::KillGroup { pid: hook_pid, signal: Signal::SIGKILL },
                )
            }
        },
        HookWaitResult::Error(e) => {
            let end = HookResult { ran: true, exit_code: None, timed_out: false, elapsed_ms };
            if config.is_loud() {
                (
                    HookRun { phase: HookPhase::SayingEnd(end), start_ns, hook_pid },
                    HookAction::Say(Notice::HookWaitFailed(e)),
                )
            } else {
                finish_hook(start_ns, hook_pid, end)
            }
        },
    }
}

/// A hook is expanded piece by piece: `%p` becomes the command's number, `%%` one
/// `%`, and everything else stays, be it before, between or after them.
pub proof fn law_hook_is_expanded_piece_by_piece(plain: Seq<char>, rest: Seq<char>, pid: int)
    requires
        forall|i: int| 0 <= i < plain.len() ==> #[trigger] plain[i] != '%',
    ensures
        expanded(plain + rest, pid) == plain + expanded(rest, pid),
        expanded(seq!['%', 'p'] + rest, pid) == signed_decimal(pid) + expanded(rest, pid),
        expanded(seq!['%', '%'] + rest, pid) == seq!['%'] + expanded(rest, pid),
        rest.len() > 0 && rest[0] != 'p' && rest[0] != '%' ==> expanded(seq!['%'] + rest, pid)
            == seq!['%'] + expanded(rest, pid),
        expanded(seq!['%'], pid) == seq!['%'],
        expanded(Seq::empty(), pid) == Seq::<char>::empty(),
    decreases plain.len(),
{
    assert((seq!['%', 'p'] + rest).skip(2) =~= rest);
    assert((seq!['%', '%'] + rest).skip(2) =~= rest);
    assert((seq!['%'] + rest).skip(1) =~= rest);
    assert(seq!['%'].skip(1) =~= Seq::empty());
    reveal_with_fuel(expanded, 2);
    if plain.len() > 0 {
        let tail = plain.skip(1);
        assert forall|i: int| 0 <= i < tail.len() implies #[trigger] tail[i] != '%' by {
            assert(tail[i] == plain[i + 1]);
        }
        law_hook_is_expanded_piece_by_piece(tail, rest, pid);
        assert((plain + rest).skip(1) =~= tail + rest);
        assert(seq![plain[0]] + (tail + expanded(rest, pid)) =~= plain + expanded(rest, pid));
    } else {
        assert(plain + rest =~= rest);
        assert(plain + expanded(rest, pid) =~= expanded(rest, pid));
    }
}

} // verus!

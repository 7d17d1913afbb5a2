//! How a command is to be run.

use vstd::prelude::*;

use crate::args::{Confine, OwnedArgs};
use crate::duration::{duration_of_text, parse_duration};
use crate::error::{exit_codes, InternalError, TimeoutError};
use crate::notice::{texts, Notice};
use crate::rlimit::{
    memory_of_text, parse_cpu_percent, parse_cpu_time, parse_mem_limit, percent_of_text,
    ResourceLimits,
};
use crate::signal::{denotes, parse_signal, Signal};
use crate::text::{
    all_digits, chars_of, decimal_value, law_whole_numbers_are_read, parse_u32, part, u32_text,
};
use crate::throttle::CpuThrottleConfig;
use crate::time::{duration_to_ns, is_no_timeout, Duration};

verus! {

/// How a command is to be run.
#[derive(Debug)]
pub struct RunConfig {
    /// How long it may run; zero is for ever.
    pub timeout: Duration,
    /// What it is sent when it has run for too long.
    pub signal: Signal,
    /// How long after that it is killed; `None` is never.
    pub kill_after: Option<Duration>,
    /// Does it stay in the supervisor's process group?
    pub foreground: bool,
    /// Say what is done.
    pub verbose: bool,
    /// Say nothing.
    pub quiet: bool,
    /// The exit code for a command that ran for too long.
    pub timeout_exit_code: u8,
    /// A shell command to run before the signal; `%p` is the command's number.
    pub on_timeout: Option<String>,
    /// How long that may run.
    pub on_timeout_limit: Duration,
    /// Which time counts.
    pub confine: Confine,
    /// How often to try again after a timeout.
    pub retry_count: u32,
    /// How long to wait before that.
    pub retry_delay: Duration,
    /// How much longer to wait each time.
    pub retry_backoff: u32,
    /// How often to say that the command still runs.
    pub heartbeat: Option<Duration>,
    /// How long input may stay idle.
    pub stdin_timeout: Option<Duration>,
    /// Leave input for the command.
    pub stdin_passthrough: bool,
    /// What the command may use.
    pub limits: ResourceLimits,
    /// How much processor time it may have.
    pub cpu_throttle: Option<CpuThrottleConfig>,
}

impl Default for RunConfig {
    /// Thirty seconds, then `SIGTERM`.
    fn default() -> (config: RunConfig)
        ensures
            config == (RunConfig {
                timeout: Duration::of_ns(30_000_000_000),
                signal: Signal::SIGTERM,
                kill_after: None,
                foreground: false,
                verbose: false,
                quiet: false,
                timeout_exit_code: 124,
                on_timeout: None,
                on_timeout_limit: Duration::of_ns(5_000_000_000),
                confine: Confine::Wall,
                retry_count: 0,
                retry_delay: Duration::of_ns(0),
                retry_backoff: 1,
                heartbeat: None,
                stdin_timeout: None,
                stdin_passthrough: false,
                limits: (ResourceLimits { mem_bytes: None, cpu_time: None }),
                cpu_throttle: None,
            }),
    {
        RunConfig {
            timeout: Duration::from_secs(30),
            signal: Signal::SIGTERM,
            kill_after: None,
            foreground: false,
            verbose: false,
            quiet: false,
            timeout_exit_code: exit_codes::TIMEOUT,
            on_timeout: None,
            on_timeout_limit: Duration::from_secs(5),
            confine: Confine::Wall,
            retry_count: 0,
            retry_delay: Duration::zero(),
            retry_backoff: 1,
            heartbeat: None,
            stdin_timeout: None,
            stdin_passthrough: false,
            limits: ResourceLimits::default(),
            cpu_throttle: None,
        }
    }
}

/// `s` without any `c` at its end.
pub open spec fn without_trailing(s: Seq<char>, c: char) -> Seq<char>
    decreases s.len(),
{
    if s.len() > 0 && s.last() == c {
        without_trailing(s.drop_last(), c)
    } else {
        s
    }
}

/// The multiplier that `s` stands for: a number, perhaps with an `x` behind it.
pub open spec fn backoff_of_text(s: Seq<char>) -> Option<u32> {
    u32_text(without_trailing(without_trailing(s, 'x'), 'X'))
}

/// Is an option that is there a duration?
pub open spec fn is_duration(option: Option<String>) -> bool {
    option matches Some(s) ==> duration_of_text(s@) is Some
}

/// The duration that an option stands for.
pub open spec fn duration_option(option: Option<String>) -> Option<Duration> {
    match option {
        Some(s) => duration_of_text(s@),
        None => None,
    }
}

/// What is wrong with the options, in the order in which they are read.
pub enum Fault {
    Timeout,
    Signal,
    KillAfter,
    OnTimeoutLimit,
    Retry,
    RetryDelay,
    RetryBackoff,
    Heartbeat,
    StdinTimeout,
    MemLimit,
    CpuTime,
    CpuPercent,
    Passthrough,
}

/// The first thing that is wrong with the options.
pub open spec fn first_fault(args: OwnedArgs, duration: Seq<char>) -> Option<Fault> {
    if duration_of_text(duration) is None {
        Some(Fault::Timeout)
    } else if forall|s: Signal| !denotes(args.signal@, s) {
        Some(Fault::Signal)
    } else if !is_duration(args.kill_after) {
        Some(Fault::KillAfter)
    } else if duration_of_text(args.on_timeout_limit@) is None {
        Some(Fault::OnTimeoutLimit)
    } else if args.retry matches Some(s) && u32_text(s@) is None {
        Some(Fault::Retry)
    } else if !is_duration(args.retry_delay) {
        Some(Fault::RetryDelay)
    } else if args.retry_backoff matches Some(s) && backoff_of_text(s@) is None {
        Some(Fault::RetryBackoff)
    } else if !is_duration(args.heartbeat) {
        Some(Fault::Heartbeat)
    } else if !is_duration(args.stdin_timeout) {
        Some(Fault::StdinTimeout)
    } else if args.mem_limit matches Some(s) && memory_of_text(s@) is None {
        Some(Fault::MemLimit)
    } else if !is_duration(args.cpu_time) {
        Some(Fault::CpuTime)
    } else if args.cpu_percent matches Some(s) && percent_of_text(s@) is None {
        Some(Fault::CpuPercent)
    } else if args.stdin_passthrough && args.stdin_timeout is None {
        Some(Fault::Passthrough)
    } else {
        None
    }
}

/// Is `error` the one for `fault`, naming the text at fault?
pub open spec fn reports(
    error: TimeoutError,
    fault: Fault,
    args: OwnedArgs,
    duration: Seq<char>,
) -> bool {
    match fault {
        Fault::Timeout => error matches TimeoutError::InvalidDuration(s) && s@ == duration,
        Fault::Signal => error matches TimeoutError::InvalidSignal(s) && s@ == args.signal@,
        Fault::KillAfter => error matches TimeoutError::InvalidDuration(s) && s@
            == args.kill_after->0@,
        Fault::OnTimeoutLimit => error matches TimeoutError::InvalidDuration(s) && s@
            == args.on_timeout_limit@,
        Fault::Retry => error matches TimeoutError::Internal(InternalError::InvalidRetryCount(s))
            && s@ == args.retry->0@,
        Fault::RetryDelay => error matches TimeoutError::InvalidDuration(s) && s@
            == args.retry_delay->0@,
        Fault::RetryBackoff => error matches TimeoutError::Internal(
            InternalError::InvalidRetryBackoff(s),
        ) && s@ == args.retry_backoff->0@,
        Fault::Heartbeat => error matches TimeoutError::InvalidDuration(s) && s@
            == args.heartbeat->0@,
        Fault::StdinTimeout => error matches TimeoutError::InvalidDuration(s) && s@
            == args.stdin_timeout->0@,
        Fault::MemLimit => error matches TimeoutError::InvalidMemoryLimit(s) && s@
            == args.mem_limit->0@,
        Fault::CpuTime => error matches TimeoutError::InvalidDuration(s) && s@
            == args.cpu_time->0@,
        Fault::CpuPercent => error matches TimeoutError::InvalidCpuPercent(s) && s@
            == args.cpu_percent->0@,
        Fault::Passthrough => error matches TimeoutError::Internal(
            InternalError::PassthroughNeedsTimeout,
        ),
    }
}

/// The throttle for a share of processor time: a look every 100 milliseconds.
pub open spec fn throttle_for(percent: u32) -> CpuThrottleConfig {
    CpuThrottleConfig { percent, interval_ns: 100_000_000, sleep_ns: 50_000_000 }
}

impl RunConfig {
    /// Does the configuration say what the options say?
    pub open spec fn follows(self, args: OwnedArgs, duration: Seq<char>) -> bool {
        &&& duration_of_text(duration) == Some(self.timeout)
        &&& denotes(args.signal@, self.signal)
        &&& self.kill_after == duration_option(args.kill_after)
        &&& self.foreground == args.foreground
        &&& self.verbose == args.verbose
        &&& self.quiet == args.quiet
        &&& self.timeout_exit_code == match args.timeout_exit_code {
            Some(code) => code,
            None => 124,
        }
        &&& match args.on_timeout {
            Some(s) => self.on_timeout matches Some(t) && t@ == s@,
            None => self.on_timeout is None,
        }
        &&& duration_of_text(args.on_timeout_limit@) == Some(self.on_timeout_limit)
        &&& self.confine == args.confine
        &&& self.retry_count == match args.retry {
            Some(s) => u32_text(s@)->0,
            None => 0,
        }
        &&& self.retry_delay == match args.retry_delay {
            Some(s) => duration_of_text(s@)->0,
            None => Duration::of_ns(0),
        }
        &&& self.retry_backoff == match args.retry_backoff {
            Some(s) if backoff_of_text(s@)->0 > 1 => backoff_of_text(s@)->0,
            _ => 1,
        }
        &&& self.heartbeat == duration_option(args.heartbeat)
        &&& self.stdin_timeout == duration_option(args.stdin_timeout)
        &&& self.stdin_passthrough == args.stdin_passthrough
        &&& self.limits.mem_bytes == match args.mem_limit {
            Some(s) => memory_of_text(s@),
            None => None,
        }
        &&& self.limits.cpu_time == duration_option(args.cpu_time)
        &&& self.cpu_throttle == match args.cpu_percent {
            Some(s) => Some(throttle_for(percent_of_text(s@)->0)),
            None => None,
        }
    }

    /// Is everything said that is done?
    pub open spec fn loud(self) -> bool {
        self.verbose && !self.quiet
    }

    /// Is everything said that is done?
    pub fn is_loud(&self) -> (yes: bool)
        ensures
            yes == self.loud(),
    {
        self.verbose && !self.quiet
    }
}

/// Are all options up to the share of processor time in order?
pub open spec fn reads_percent(args: OwnedArgs, duration: Seq<char>) -> bool {
    first_fault(args, duration) is None || first_fault(args, duration) == Some(Fault::Passthrough)
}

/// The warnings that the options call for: a very low share of processor time,
/// unless all is to be quiet, and a hook that may outlast the command.
pub open spec fn warnings_for(args: OwnedArgs, duration: Seq<char>) -> Seq<Seq<char>> {
    let low = if reads_percent(args, duration) && args.cpu_percent is Some && percent_of_text(
        args.cpu_percent->0@,
    )->0 < 10 && !args.quiet {
        seq![Notice::LowCpuPercent(percent_of_text(args.cpu_percent->0@)->0).text()]
    } else {
        Seq::empty()
    };
    let long = if first_fault(args, duration) is None && args.on_timeout is Some
        && duration_of_text(args.on_timeout_limit@)->0.total_ns() > duration_of_text(
        duration,
    )->0.total_ns() && duration_of_text(duration)->0.total_ns() > 0 {
        seq![
            "warning: --on-timeout-limit ("@ + args.on_timeout_limit@ + ") exceeds main timeout ("@
                + duration + ")"@,
        ]
    } else {
        Seq::empty()
    };
    low + long
}

/// The characters of `v` without any `c` at their end.
fn trim_end(v: Vec<char>, c: char) -> (t: Vec<char>)
    ensures
        t@ == without_trailing(v@, c),
{
    let mut end: usize = v.len();
    assert(v@.take(end as int) =~= v@);
    while end > 0 && v[end - 1] == c
        invariant
            end <= v.len(),
            without_trailing(v@.take(end as int), c) == without_trailing(v@, c),
        decreases end,
    {
        assert(v@.take(end as int).drop_last() =~= v@.take(end - 1));
        end -= 1;
    }
    assert(v@.subrange(0, end as int) =~= v@.take(end as int));
    part(&v, 0, end)
}

/// Reads a multiplier.
fn read_backoff(text: &str) -> (n: Option<u32>)
    ensures
        n == backoff_of_text(text@),
{
    let v: Vec<char> = trim_end(trim_end(chars_of(text), 'x'), 'X');
    parse_u32(&v)
}

/// Reads a duration that may be missing.
fn read_duration_option(option: &Option<String>) -> (d: Result<Option<Duration>, TimeoutError>)
    ensures
        d matches Ok(d) ==> is_duration(*option) && d == duration_option(*option),
        d matches Err(e) ==> !is_duration(*option) && (e matches TimeoutError::InvalidDuration(s)
            && s@ == option->0@),
{
    match option {
        Some(s) => match parse_duration(s.as_str()) {
            Ok(d) => Ok(Some(d)),
            Err(e) => Err(e),
        },
        None => Ok(None),
    }
}

impl RunConfig {
    /// Reads the options and the time limit; adds to `warnings` what is odd
    /// about them.
    pub fn from_args(
        args: &OwnedArgs,
        duration_str: &str,
        warnings: &mut Vec<Notice>,
    ) -> (config: Result<RunConfig, TimeoutError>)
        ensures
            config matches Ok(config) ==> first_fault(*args, duration_str@) is None
                && config.follows(*args, duration_str@),
            config matches Err(e) ==> (first_fault(*args, duration_str@) matches Some(fault)
                && reports(e, fault, *args, duration_str@)),
            texts(final(warnings)@) == texts(old(warnings)@) + warnings_for(*args, duration_str@),
    {
        let timeout: Duration = match parse_duration(duration_str) {
            Ok(d) => d,
            Err(e) => {
                return Err(e);
            },
        };
        let signal: Signal = match parse_signal(args.signal.as_str()) {
            Ok(s) => s,
            Err(e) => {
                return Err(e);
            },
        };
        let kill_after: Option<Duration> = match read_duration_option(&args.kill_after) {
            Ok(d) => d,
            Err(e) => {
                return Err(e);
            },
        };
        let on_timeout_limit: Duration = match parse_duration(args.on_timeout_limit.as_str()) {
            Ok(d) => d,
            Err(e) => {
                return Err(e);
            },
        };
        let retry_count: u32 = match &args.retry {
            Some(s) => match parse_u32(&chars_of(s.as_str())) {
                Some(n) => n,
                None => {
                    return Err(
                        TimeoutError::Internal(InternalError::InvalidRetryCount(s.clone())),
                    );
                },
            },
            None => 0,
        };
        let retry_delay: Duration = match read_duration_option(&args.retry_delay) {
            Ok(Some(d)) => d,
            Ok(None) => Duration::zero(),
            Err(e) => {
                return Err(e);
            },
        };
        let retry_backoff: u32 = match &args.retry_backoff {
            Some(s) => match read_backoff(s.as_str()) {
                Some(n) => if n > 1 {
                    n
                } else {
                    1
                },
                None => {
                    return Err(
                        TimeoutError::Internal(InternalError::InvalidRetryBackoff(s.clone())),
                    );
                },
            },
            None => 1,
        };
        let heartbeat: Option<Duration> = match read_duration_option(&args.heartbeat) {
            Ok(d) => d,
            Err(e) => {
                return Err(e);
            },
        };
        let stdin_timeout: Option<Duration> = match read_duration_option(&args.stdin_timeout) {
            Ok(d) => d,
            Err(e) => {
                return Err(e);
            },
        };
        let mem_bytes: Option<u64> = match &args.mem_limit {
            Some(s) => match parse_mem_limit(s.as_str()) {
                Ok(n) => Some(n),
                Err(e) => {
                    return Err(e);
                },
            },
            None => None,
        };
        let cpu_time: Option<Duration> = match &args.cpu_time {
            Some(s) => match parse_cpu_time(s.as_str()) {
                Ok(d) => Some(d),
                Err(e) => {
                    return Err(e);
                },
            },
            None => None,
        };
        let cpu_throttle: Option<CpuThrottleConfig> = match &args.cpu_percent {
            Some(s) => match parse_cpu_percent(s.as_str()) {
                Ok(percent) => {
                    if percent < 10 && !args.quiet {
                        warn(warnings, Notice::LowCpuPercent(percent));
                    }
                    Some(make_throttle(percent))
                },
                Err(e) => {
                    return Err(e);
                },
            },
            None => None,
        };
        if args.stdin_passthrough && stdin_timeout.is_none() {
            return Err(TimeoutError::Internal(InternalError::PassthroughNeedsTimeout));
        }
        if args.on_timeout.is_some() && on_timeout_limit.longer_than(&timeout) && !is_no_timeout(
            &timeout,
        ) {
            warn(
                warnings,
                Notice::HookLimitExceedsTimeout {
                    limit: args.on_timeout_limit.clone(),
                    timeout: duration_str.to_owned(),
                },
            );
        }
        Ok(
            RunConfig {
                timeout,
                signal,
                kill_after,
                foreground: args.foreground,
                verbose: args.verbose,
                quiet: args.quiet,
                timeout_exit_code: match args.timeout_exit_code {
                    Some(code) => code,
                    None => exit_codes::TIMEOUT,
                },
                on_timeout: match &args.on_timeout {
                    Some(s) => Some(s.clone()),
                    None => None,
                },
                on_timeout_limit,
                confine: args.confine,
                retry_count,
                retry_delay,
                retry_backoff,
                heartbeat,
                stdin_timeout,
                stdin_passthrough: args.stdin_passthrough,
                limits: ResourceLimits { mem_bytes, cpu_time },
                cpu_throttle,
            },
        )
    }
}

/// Adds a warning.
fn warn(warnings: &mut Vec<Notice>, notice: Notice)
    ensures
        texts(final(warnings)@) == texts(old(warnings)@).push(notice.text()),
{
    let ghost text = notice.text();
    warnings.push(notice);
    assert(texts(warnings@) =~= texts(old(warnings)@).push(text));
}

/// The throttle for a share of processor time.
fn make_throttle(percent: u32) -> (cfg: CpuThrottleConfig)
    ensures
        cfg == throttle_for(percent),
{
    CpuThrottleConfig {
        percent,
        interval_ns: duration_to_ns(Duration::from_millis(100)),
        sleep_ns: duration_to_ns(Duration::from_millis(50)),
    }
}

/// Whatever the options, a configuration read from them never shrinks the delay
/// between attempts, never watches input for nothing, and never asks for no
/// processor time at all.
pub proof fn law_read_config_is_sound(config: RunConfig, args: OwnedArgs, duration: Seq<char>)
    requires
        first_fault(args, duration) is None,
        config.follows(args, duration),
    ensures
        config.retry_backoff >= 1,
        config.stdin_passthrough ==> config.stdin_timeout is Some,
        config.cpu_throttle matches Some(t) ==> t.percent > 0,
{
}

/// Is a duration that is asked for the one that is configured, and none that is
/// not?
pub open spec fn takes_duration(option: Option<String>, taken: Option<Duration>) -> bool {
    match option {
        Some(s) => taken is Some && duration_of_text(s@) == taken,
        None => taken is None,
    }
}

/// Every option that is given is followed, and one that is not has its default: no
/// grace period, no hook, no retries, no delay between them and no backoff, no
/// heartbeat, no limit on idle input, memory or processor time, and exit code 124.
pub proof fn law_every_option_is_followed(config: RunConfig, args: OwnedArgs, duration: Seq<char>)
    requires
        first_fault(args, duration) is None,
        config.follows(args, duration),
    ensures
        duration_of_text(duration) == Some(config.timeout),
        denotes(args.signal@, config.signal),
        takes_duration(args.kill_after, config.kill_after),
        takes_duration(args.heartbeat, config.heartbeat),
        takes_duration(args.stdin_timeout, config.stdin_timeout),
        takes_duration(args.cpu_time, config.limits.cpu_time),
        duration_of_text(args.on_timeout_limit@) == Some(config.on_timeout_limit),
        config.foreground == args.foreground,
        config.verbose == args.verbose,
        config.quiet == args.quiet,
        config.confine == args.confine,
        config.stdin_passthrough == args.stdin_passthrough,
        args.timeout_exit_code matches Some(code) ==> config.timeout_exit_code == code,
        args.timeout_exit_code is None ==> config.timeout_exit_code == 124,
        args.on_timeout matches Some(hook) ==> (config.on_timeout matches Some(text) && text@
            == hook@),
        args.on_timeout is None ==> config.on_timeout is None,
        args.retry matches Some(s) ==> u32_text(s@) == Some(config.retry_count),
        args.retry is None ==> config.retry_count == 0,
        args.retry_delay matches Some(s) ==> duration_of_text(s@) == Some(config.retry_delay),
        args.retry_delay is None ==> config.retry_delay == Duration::of_ns(0),
        args.retry_backoff matches Some(s) ==> (backoff_of_text(s@) matches Some(n) && (n > 1
            ==> config.retry_backoff == n) && (n <= 1 ==> config.retry_backoff == 1)),
        args.retry_backoff is None ==> config.retry_backoff == 1,
        args.mem_limit matches Some(s) ==> config.limits.mem_bytes is Some && memory_of_text(s@)
            == config.limits.mem_bytes,
        args.mem_limit is None ==> config.limits.mem_bytes is None,
        args.cpu_percent matches Some(s) ==> (config.cpu_throttle matches Some(t)
            && percent_of_text(s@) == Some(t.percent) && t.interval_ns == 100_000_000
            && t.sleep_ns == 50_000_000),
        args.cpu_percent is None ==> config.cpu_throttle is None,
{
}

/// The options are in order exactly if each that is given can be read, and input is
/// not to be passed through without a limit on it.
pub proof fn law_options_are_in_order_if_each_is(args: OwnedArgs, duration: Seq<char>)
    ensures
        first_fault(args, duration) is None <==> {
            &&& duration_of_text(duration) is Some
            &&& exists|s: Signal| denotes(args.signal@, s)
            &&& args.kill_after matches Some(s) ==> duration_of_text(s@) is Some
            &&& duration_of_text(args.on_timeout_limit@) is Some
            &&& args.retry matches Some(s) ==> u32_text(s@) is Some
            &&& args.retry_delay matches Some(s) ==> duration_of_text(s@) is Some
            &&& args.retry_backoff matches Some(s) ==> backoff_of_text(s@) is Some
            &&& args.heartbeat matches Some(s) ==> duration_of_text(s@) is Some
            &&& args.stdin_timeout matches Some(s) ==> duration_of_text(s@) is Some
            &&& args.mem_limit matches Some(s) ==> memory_of_text(s@) is Some
            &&& args.cpu_time matches Some(s) ==> duration_of_text(s@) is Some
            &&& args.cpu_percent matches Some(s) ==> percent_of_text(s@) is Some
            &&& args.stdin_passthrough ==> args.stdin_timeout is Some
        },
{
}

/// What is wrong with the options is told by a text that is given and cannot be
/// read: the error is of the kind for such texts, and names this one.
pub proof fn law_error_names_what_cannot_be_read(
    error: TimeoutError,
    args: OwnedArgs,
    duration: Seq<char>,
)
    requires
        first_fault(args, duration) is Some,
        reports(error, first_fault(args, duration)->0, args, duration),
    ensures
        match error {
            TimeoutError::InvalidDuration(s) => duration_of_text(s@) is None && (s@ == duration
                || s@ == args.on_timeout_limit@ || given(args.kill_after, s@) || given(
                args.retry_delay,
                s@,
            ) || given(args.heartbeat, s@) || given(args.stdin_timeout, s@) || given(
                args.cpu_time,
                s@,
            )),
            TimeoutError::InvalidSignal(s) => s@ == args.signal@ && forall|signal: Signal|
                !denotes(args.signal@, signal),
            TimeoutError::InvalidMemoryLimit(s) => given(args.mem_limit, s@) && memory_of_text(s@)
                is None,
            TimeoutError::InvalidCpuPercent(s) => given(args.cpu_percent, s@) && percent_of_text(
                s@,
            ) is None,
            TimeoutError::Internal(InternalError::InvalidRetryCount(s)) => given(args.retry, s@)
                && u32_text(s@) is None,
            TimeoutError::Internal(InternalError::InvalidRetryBackoff(s)) => given(
                args.retry_backoff,
                s@,
            ) && backoff_of_text(s@) is None,
            TimeoutError::Internal(InternalError::PassthroughNeedsTimeout) =>
                args.stdin_passthrough && args.stdin_timeout is None,
            _ => false,
        },
        duration_of_text(duration) is None ==> (error matches TimeoutError::InvalidDuration(s)
            && s@ == duration),
        error.code() == 125,
{
}

/// Is this the text of an option?
pub open spec fn given(option: Option<String>, text: Seq<char>) -> bool {
    option matches Some(s) && s@ == text
}

/// There is a warning about a share of processor time below ten percent, unless all
/// is to be quiet, and one about a hook that may run for longer than the command,
/// unless that may run for ever. There are no others.
pub proof fn law_odd_options_are_warned_of(args: OwnedArgs, duration: Seq<char>)
    requires
        first_fault(args, duration) is None,
    ensures
        ({
            let warnings = warnings_for(args, duration);
            let low = args.cpu_percent is Some && percent_of_text(args.cpu_percent->0@)->0 < 10
                && !args.quiet;
            let timeout = duration_of_text(duration)->0.total_ns();
            let limit = duration_of_text(args.on_timeout_limit@)->0.total_ns();
            let long = args.on_timeout is Some && limit > timeout && timeout > 0;
            &&& warnings.len() == (if low {
                1int
            } else {
                0
            }) + (if long {
                1int
            } else {
                0
            })
            &&& low ==> warnings[0] == Notice::LowCpuPercent(
                percent_of_text(args.cpu_percent->0@)->0,
            ).text()
            &&& long ==> warnings.last() == "warning: --on-timeout-limit ("@
                + args.on_timeout_limit@ + ") exceeds main timeout ("@ + duration + ")"@
        }),
{
}

/// A backoff is a whole number, with as many `x` behind it as one likes, small or
/// then large.
pub proof fn law_backoff_is_a_number_with_an_x(digits: Seq<char>)
    requires
        all_digits(digits),
        digits.len() > 0,
        decimal_value(digits) <= u32::MAX,
    ensures
        backoff_of_text(digits) == Some(decimal_value(digits) as u32),
        backoff_of_text(digits.push('x')) == Some(decimal_value(digits) as u32),
        backoff_of_text(digits.push('X')) == Some(decimal_value(digits) as u32),
{
    law_whole_numbers_are_read(digits, digits);
    assert(crate::text::is_digit(digits[digits.len() - 1]));
    assert(digits.push('x').drop_last() =~= digits);
    assert(digits.push('X').drop_last() =~= digits);
    reveal_with_fuel(without_trailing, 2);
}

/// Something is said of what is done only if that is asked for and all is not to be
/// quiet.
pub proof fn law_quiet_outweighs_verbose(config: RunConfig)
    ensures
        config.loud() <==> config.verbose && !config.quiet,
{
}

/// Which option comes how early.
pub open spec fn place(fault: Fault) -> nat {
    match fault {
        Fault::Timeout => 1,
        Fault::Signal => 2,
        Fault::KillAfter => 3,
        Fault::OnTimeoutLimit => 4,
        Fault::Retry => 5,
        Fault::RetryDelay => 6,
        Fault::RetryBackoff => 7,
        Fault::Heartbeat => 8,
        Fault::StdinTimeout => 9,
        Fault::MemLimit => 10,
        Fault::CpuTime => 11,
        Fault::CpuPercent => 12,
        Fault::Passthrough => 13,
    }
}

/// Can this option not be read?
pub open spec fn is_wrong(fault: Fault, args: OwnedArgs, duration: Seq<char>) -> bool {
    match fault {
        Fault::Timeout => duration_of_text(duration) is None,
        Fault::Signal => forall|s: Signal| !denotes(args.signal@, s),
        Fault::KillAfter => args.kill_after is Some && duration_of_text(args.kill_after->0@)
            is None,
        Fault::OnTimeoutLimit => duration_of_text(args.on_timeout_limit@) is None,
        Fault::Retry => args.retry is Some && u32_text(args.retry->0@) is None,
        Fault::RetryDelay => args.retry_delay is Some && duration_of_text(args.retry_delay->0@)
            is None,
        Fault::RetryBackoff => args.retry_backoff is Some && backoff_of_text(
            args.retry_backoff->0@,
        ) is None,
        Fault::Heartbeat => args.heartbeat is Some && duration_of_text(args.heartbeat->0@) is None,
        Fault::StdinTimeout => args.stdin_timeout is Some && duration_of_text(
            args.stdin_timeout->0@,
        ) is None,
        Fault::MemLimit => args.mem_limit is Some && memory_of_text(args.mem_limit->0@) is None,
        Fault::CpuTime => args.cpu_time is Some && duration_of_text(args.cpu_time->0@) is None,
        Fault::CpuPercent => args.cpu_percent is Some && percent_of_text(args.cpu_percent->0@)
            is None,
        Fault::Passthrough => args.stdin_passthrough && args.stdin_timeout is None,
    }
}

/// What is reported is the first option that cannot be read. Where one cannot, there
/// is no warning but that of a low share of processor time, and that only where all
/// the texts could be read.
pub proof fn law_first_wrong_option_is_reported(
    args: OwnedArgs,
    duration: Seq<char>,
    fault: Fault,
    other: Fault,
)
    requires
        first_fault(args, duration) == Some(fault),
    ensures
        is_wrong(fault, args, duration),
        is_wrong(other, args, duration) ==> place(fault) <= place(other),
        fault !is Passthrough ==> warnings_for(args, duration).len() == 0,
        fault is Passthrough ==> warnings_for(args, duration).len() == if args.cpu_percent is Some
            && percent_of_text(args.cpu_percent->0@)->0 < 10 && !args.quiet {
            1int
        } else {
            0
        },
{
}

} // verus!

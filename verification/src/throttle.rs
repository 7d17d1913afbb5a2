//! Holding a command to a share of processor time.
//!
//! The command is stopped while it has used more than its share of the time
//! since it was first seen, and continued once the clock has caught up.

use vstd::prelude::*;

use crate::error::TimeoutError;
use crate::signal::Signal;

verus! {

/// How much processor time the command may have, and how often to look.
#[derive(Clone, Copy, Debug, PartialEq, Eq, Structural)]
pub struct CpuThrottleConfig {
    /// Hundredths of one core.
    pub percent: u32,
    pub interval_ns: u64,
    pub sleep_ns: u64,
}

/// What is known of the command's use of processor time.
#[derive(Clone, Copy, Debug, PartialEq, Eq, Structural)]
pub struct CpuThrottleState {
    pub pid: i32,
    /// When the command was first seen.
    pub start_wall_ns: u64,
    /// What it had used by then.
    pub start_cpu_ns: u64,
    /// When it was last looked at.
    pub last_wall_ns: u64,
    /// Is it stopped?
    pub suspended: bool,
    /// Has it ended?
    pub exited: bool,
}

/// A command under throttle.
#[derive(Clone, Copy, Debug, PartialEq, Eq, Structural)]
pub struct ThrottleContext {
    pub cfg: CpuThrottleConfig,
    pub state: CpuThrottleState,
}

impl CpuThrottleState {
    /// Has a command that has used `cpu_ns` by `now` had more than its share?
    pub open spec fn over_share(self, cfg: CpuThrottleConfig, now: u64, cpu_ns: u64) -> bool {
        (cpu_ns - self.start_cpu_ns) * 100 > (now - self.start_wall_ns) * cfg.percent
    }

    /// What is known after a look at the command.
    pub open spec fn looked_at(self, cfg: CpuThrottleConfig, now: u64, cpu_ns: u64) -> CpuThrottleState {
        CpuThrottleState {
            last_wall_ns: now,
            suspended: !self.exited && self.over_share(cfg, now, cpu_ns),
            ..self
        }
    }

    /// What a look at the command has it sent: never anything once it has
    /// ended.
    pub open spec fn signal_for(self, cfg: CpuThrottleConfig, now: u64, cpu_ns: u64) -> Option<Signal> {
        if self.exited {
            None
        } else if self.over_share(cfg, now, cpu_ns) {
            Some(Signal::SIGSTOP)
        } else {
            Some(Signal::SIGCONT)
        }
    }

    /// What is known once the command was let go on.
    pub open spec fn resumed(self) -> CpuThrottleState {
        CpuThrottleState { suspended: false, ..self }
    }

    /// What letting the command go on has it sent.
    pub open spec fn signal_to_resume(self) -> Option<Signal> {
        if self.suspended && !self.exited {
            Some(Signal::SIGCONT)
        } else {
            None
        }
    }

    /// What is known once the command has ended.
    pub open spec fn ended(self) -> CpuThrottleState {
        CpuThrottleState { suspended: false, exited: true, ..self }
    }

    /// The command `pid`, first seen at `start_ns`, when it had used what `used`
    /// says; the error if that is not known.
    pub fn new(pid: i32, start_ns: u64, used: Result<u64, TimeoutError>) -> (state: Result<
        CpuThrottleState,
        TimeoutError,
    >)
        ensures
            match used {
                Ok(cpu_ns) => state == Ok::<_, TimeoutError>(
                    CpuThrottleState {
                        pid,
                        start_wall_ns: start_ns,
                        start_cpu_ns: cpu_ns,
                        last_wall_ns: start_ns,
                        suspended: false,
                        exited: false,
                    },
                ),
                Err(e) => state == Err::<CpuThrottleState, _>(e),
            },
    {
        match used {
            Ok(cpu_ns) => Ok(
                CpuThrottleState {
                    pid,
                    start_wall_ns: start_ns,
                    start_cpu_ns: cpu_ns,
                    last_wall_ns: start_ns,
                    suspended: false,
                    exited: false,
                },
            ),
            Err(e) => Err(e),
        }
    }

    /// Looks at the command, which has used what `used` says by `now`, and says
    /// what to send it; the error if its use is not known.
    pub fn update(
        &mut self,
        cfg: &CpuThrottleConfig,
        now: u64,
        used: Result<u64, TimeoutError>,
    ) -> (signal: Result<Option<Signal>, TimeoutError>)
        ensures
            match used {
                Ok(cpu_ns) => *final(self) == old(self).looked_at(*cfg, now, cpu_ns) && signal
                    == Ok::<_, TimeoutError>(old(self).signal_for(*cfg, now, cpu_ns)),
                Err(e) => *final(self) == *old(self) && signal == Err::<Option<Signal>, _>(e),
            },
    {
        match used {
            Ok(cpu_ns) => {
                let over: bool = self.is_over_share(cfg, now, cpu_ns);
                self.last_wall_ns = now;
                self.suspended = !self.exited && over;
                if self.exited {
                    Ok(None)
                } else if over {
                    Ok(Some(Signal::SIGSTOP))
                } else {
                    Ok(Some(Signal::SIGCONT))
                }
            },
            Err(e) => Err(e),
        }
    }

    fn is_over_share(&self, cfg: &CpuThrottleConfig, now: u64, cpu_ns: u64) -> (over: bool)
        ensures
            over == self.over_share(*cfg, now, cpu_ns),
    {
        let cpu: i128 = cpu_ns as i128 - self.start_cpu_ns as i128;
        let wall: i128 = now as i128 - self.start_wall_ns as i128;
        assert(-0x1_0000_0000_0000_0000_0000_0000 <= wall * cfg.percent
            <= 0x1_0000_0000_0000_0000_0000_0000) by (nonlinear_arith)
            requires
                -0x1_0000_0000_0000_0000 <= wall <= 0x1_0000_0000_0000_0000,
                0 <= cfg.percent <= 0xffff_ffff,
        ;
        cpu * 100 > wall * cfg.percent as i128
    }

    /// Lets the command go on, if it is stopped: says what to send it.
    pub fn resume(&mut self) -> (signal: Option<Signal>)
        ensures
            *final(self) == old(self).resumed(),
            signal == old(self).signal_to_resume(),
            *final(self) == (CpuThrottleState { suspended: false, ..*old(self) }),
            signal == (if old(self).suspended && !old(self).exited {
                Some(Signal::SIGCONT)
            } else {
                None
            }),
    {
        let stopped: bool = self.suspended && !self.exited;
        self.suspended = false;
        if stopped {
            Some(Signal::SIGCONT)
        } else {
            None
        }
    }

    /// The command has ended: its number may soon be another's.
    pub fn mark_process_exited(&mut self)
        ensures
            *final(self) == old(self).ended(),
            *final(self) == (CpuThrottleState { suspended: false, exited: true, ..*old(self) }),
    {
        self.suspended = false;
        self.exited = true;
    }
}

/// A stopped command is continued as soon as the clock has caught up with what
/// it had used, and not before.
pub proof fn law_debt_is_paid(
    state: CpuThrottleState,
    cfg: CpuThrottleConfig,
    now: u64,
    cpu_ns: u64,
)
    requires
        !state.exited,
    ensures
        state.looked_at(cfg, now, cpu_ns).suspended <==> (cpu_ns - state.start_cpu_ns) * 100 > (now
            - state.start_wall_ns) * cfg.percent,
        state.signal_for(cfg, now, cpu_ns) == Some(
            if state.looked_at(cfg, now, cpu_ns).suspended {
                Signal::SIGSTOP
            } else {
                Signal::SIGCONT
            },
        ),
{
}

/// A command within its share that uses no more stays within it, as long as the
/// clock only goes forward.
pub proof fn law_stopping_lets_the_clock_catch_up(
    state: CpuThrottleState,
    cfg: CpuThrottleConfig,
    now: u64,
    later: u64,
    cpu_ns: u64,
)
    requires
        now <= later,
        !state.over_share(cfg, now, cpu_ns),
    ensures
        !state.over_share(cfg, later, cpu_ns),
{
    assert((now - state.start_wall_ns) * cfg.percent <= (later - state.start_wall_ns)
        * cfg.percent) by (nonlinear_arith)
        requires
            now <= later,
            0 <= cfg.percent,
    ;
}

/// A command that has ended is never sent anything again.
pub proof fn law_ended_command_is_left_alone(
    state: CpuThrottleState,
    cfg: CpuThrottleConfig,
    now: u64,
    cpu_ns: u64,
)
    requires
        state.exited,
    ensures
        state.signal_for(cfg, now, cpu_ns) is None,
        state.looked_at(cfg, now, cpu_ns).exited,
{
}

/// A look at a command changes nothing but what it is for: when it was last
/// looked at, and whether it is stopped. The share is always counted from when
/// the command was first seen, so nothing it has used is ever forgiven.
pub proof fn law_look_keeps_the_account(
    state: CpuThrottleState,
    cfg: CpuThrottleConfig,
    now: u64,
    cpu_ns: u64,
)
    ensures
        ({
            let then = state.looked_at(cfg, now, cpu_ns);
            &&& then.pid == state.pid
            &&& then.start_wall_ns == state.start_wall_ns
            &&& then.start_cpu_ns == state.start_cpu_ns
            &&& then.exited == state.exited
            &&& then.last_wall_ns == now
            &&& then.suspended ==> !state.exited
        }),
{
}

/// A command that takes no more than its share is never stopped, and one that
/// takes more always is: of each second it may have as many hundredths as were
/// asked for.
pub proof fn law_share_is_of_the_time_passed(
    state: CpuThrottleState,
    cfg: CpuThrottleConfig,
    seconds: u64,
    cpu_ns: u64,
    now: u64,
)
    requires
        !state.exited,
        now == state.start_wall_ns + seconds * 1_000_000_000,
    ensures
        cpu_ns - state.start_cpu_ns <= seconds * cfg.percent * 10_000_000 ==> state.signal_for(
            cfg,
            now,
            cpu_ns,
        ) == Some(Signal::SIGCONT),
        cpu_ns - state.start_cpu_ns > seconds * cfg.percent * 10_000_000 ==> state.signal_for(
            cfg,
            now,
            cpu_ns,
        ) == Some(Signal::SIGSTOP),
{
    assert((seconds * 1_000_000_000) * cfg.percent == 100 * (seconds * cfg.percent * 10_000_000))
        by (nonlinear_arith);
}

/// A command that is stopped is let go on, once, and any other is left as it is. A
/// command that has ended is never let go on, nor stopped, again. Neither touches
/// the account of what it has used.
pub proof fn law_stopped_command_is_let_go_once(
    state: CpuThrottleState,
    cfg: CpuThrottleConfig,
    now: u64,
    cpu_ns: u64,
)
    ensures
        state.signal_to_resume() == Some(Signal::SIGCONT) <==> state.suspended && !state.exited,
        state.signal_to_resume() is Some ==> state.signal_to_resume() == Some(Signal::SIGCONT),
        state.resumed().signal_to_resume() is None,
        state.ended().signal_to_resume() is None,
        state.ended().signal_for(cfg, now, cpu_ns) is None,
        state.resumed().signal_for(cfg, now, cpu_ns) == state.signal_for(cfg, now, cpu_ns),
        state.resumed().exited == state.exited,
        state.resumed().last_wall_ns == state.last_wall_ns,
        state.resumed().looked_at(cfg, now, cpu_ns) == state.looked_at(cfg, now, cpu_ns),
{
}

} // verus!

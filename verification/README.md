# procguard

A process supervisor for macOS: it runs a command under a time limit, an idle
limit on its input, a memory limit and a share of processor time, and tries
again if asked to.

`src/` decides. Each part of a run is a machine that says what to do next and is
told what came of it; what it decides is stated in its contract and proved by
Verus. It makes no system call.

| Module | Decides |
|--------|---------|
| `config`, `duration`, `rlimit`, `signal`, `args` | what the options mean |
| `command` | how a command is started, and whether it needs watching |
| `monitor` | when a command is stopped, and how |
| `wait`, `kqueue` | what to wait for, and what an event means |
| `hook` | how the on-timeout hook is run |
| `send` | how a signal reaches the command |
| `throttle` | when a command is held back |
| `retry`, `attempts` | whether to try again, and when |
| `forwarding` | how signals are taken in |
| `outcome`, `process`, `error`, `notice` | what a run came to, in codes and words |
| `clock`, `time`, `text` | time and numbers |

The modules whose names end in `_laws` state what holds of whole runs: that a
queue is closed once, and left open only where the clock cannot be read or the
throttle fails, that a command is never killed without a grace period, that only
timeouts are retried, and so on. `sys` holds what is believed of `libc`.

`app/` acts: it holds the system calls and one small loop for each machine.
`tests/` runs the machines against a simulated system.

//! Signals, by their Darwin numbers.

use vstd::prelude::*;

use crate::error::TimeoutError;
use crate::text::{
    all_digits, chars_of, decimal, decimal_value, digits_only, fit_u64, is_digit,
    law_decimal_round_trip, letters_match, lower, lower_case, number_at, same_letters,
};

verus! {

/// A signal of Darwin.
#[allow(clippy::upper_case_acronyms)]
#[derive(Clone, Copy, Debug, PartialEq, Eq, Structural, Hash)]
pub enum Signal {
    SIGHUP,
    SIGINT,
    SIGQUIT,
    SIGILL,
    SIGTRAP,
    SIGABRT,
    SIGEMT,
    SIGFPE,
    SIGKILL,
    SIGBUS,
    SIGSEGV,
    SIGSYS,
    SIGPIPE,
    SIGALRM,
    SIGTERM,
    SIGURG,
    SIGSTOP,
    SIGTSTP,
    SIGCONT,
    SIGCHLD,
    SIGTTIN,
    SIGTTOU,
    SIGIO,
    SIGXCPU,
    SIGXFSZ,
    SIGVTALRM,
    SIGPROF,
    SIGWINCH,
    SIGINFO,
    SIGUSR1,
    SIGUSR2,
}

/// The signal with a number, if there is one.
pub open spec fn signal_of(n: int) -> Option<Signal> {
    if n == 1 {
        Some(Signal::SIGHUP)
    } else if n == 2 {
        Some(Signal::SIGINT)
    } else if n == 3 {
        Some(Signal::SIGQUIT)
    } else if n == 4 {
        Some(Signal::SIGILL)
    } else if n == 5 {
        Some(Signal::SIGTRAP)
    } else if n == 6 {
        Some(Signal::SIGABRT)
    } else if n == 7 {
        Some(Signal::SIGEMT)
    } else if n == 8 {
        Some(Signal::SIGFPE)
    } else if n == 9 {
        Some(Signal::SIGKILL)
    } else if n == 10 {
        Some(Signal::SIGBUS)
    } else if n == 11 {
        Some(Signal::SIGSEGV)
    } else if n == 12 {
        Some(Signal::SIGSYS)
    } else if n == 13 {
        Some(Signal::SIGPIPE)
    } else if n == 14 {
        Some(Signal::SIGALRM)
    } else if n == 15 {
        Some(Signal::SIGTERM)
    } else if n == 16 {
        Some(Signal::SIGURG)
    } else if n == 17 {
        Some(Signal::SIGSTOP)
    } else if n == 18 {
        Some(Signal::SIGTSTP)
    } else if n == 19 {
        Some(Signal::SIGCONT)
    } else if n == 20 {
        Some(Signal::SIGCHLD)
    } else if n == 21 {
        Some(Signal::SIGTTIN)
    } else if n == 22 {
        Some(Signal::SIGTTOU)
    } else if n == 23 {
        Some(Signal::SIGIO)
    } else if n == 24 {
        Some(Signal::SIGXCPU)
    } else if n == 25 {
        Some(Signal::SIGXFSZ)
    } else if n == 26 {
        Some(Signal::SIGVTALRM)
    } else if n == 27 {
        Some(Signal::SIGPROF)
    } else if n == 28 {
        Some(Signal::SIGWINCH)
    } else if n == 29 {
        Some(Signal::SIGINFO)
    } else if n == 30 {
        Some(Signal::SIGUSR1)
    } else if n == 31 {
        Some(Signal::SIGUSR2)
    } else {
        None
    }
}

impl Signal {
    /// The signal's number.
    pub open spec fn number(self) -> int {
        match self {
            Signal::SIGHUP => 1,
            Signal::SIGINT => 2,
            Signal::SIGQUIT => 3,
            Signal::SIGILL => 4,
            Signal::SIGTRAP => 5,
            Signal::SIGABRT => 6,
            Signal::SIGEMT => 7,
            Signal::SIGFPE => 8,
            Signal::SIGKILL => 9,
            Signal::SIGBUS => 10,
            Signal::SIGSEGV => 11,
            Signal::SIGSYS => 12,
            Signal::SIGPIPE => 13,
            Signal::SIGALRM => 14,
            Signal::SIGTERM => 15,
            Signal::SIGURG => 16,
            Signal::SIGSTOP => 17,
            Signal::SIGTSTP => 18,
            Signal::SIGCONT => 19,
            Signal::SIGCHLD => 20,
            Signal::SIGTTIN => 21,
            Signal::SIGTTOU => 22,
            Signal::SIGIO => 23,
            Signal::SIGXCPU => 24,
            Signal::SIGXFSZ => 25,
            Signal::SIGVTALRM => 26,
            Signal::SIGPROF => 27,
            Signal::SIGWINCH => 28,
            Signal::SIGINFO => 29,
            Signal::SIGUSR1 => 30,
            Signal::SIGUSR2 => 31,
        }
    }

    /// The signal's full name.
    pub open spec fn full_name(self) -> Seq<char> {
        match self {
            Signal::SIGHUP => "SIGHUP"@,
            Signal::SIGINT => "SIGINT"@,
            Signal::SIGQUIT => "SIGQUIT"@,
            Signal::SIGILL => "SIGILL"@,
            Signal::SIGTRAP => "SIGTRAP"@,
            Signal::SIGABRT => "SIGABRT"@,
            Signal::SIGEMT => "SIGEMT"@,
            Signal::SIGFPE => "SIGFPE"@,
            Signal::SIGKILL => "SIGKILL"@,
            Signal::SIGBUS => "SIGBUS"@,
            Signal::SIGSEGV => "SIGSEGV"@,
            Signal::SIGSYS => "SIGSYS"@,
            Signal::SIGPIPE => "SIGPIPE"@,
            Signal::SIGALRM => "SIGALRM"@,
            Signal::SIGTERM => "SIGTERM"@,
            Signal::SIGURG => "SIGURG"@,
            Signal::SIGSTOP => "SIGSTOP"@,
            Signal::SIGTSTP => "SIGTSTP"@,
            Signal::SIGCONT => "SIGCONT"@,
            Signal::SIGCHLD => "SIGCHLD"@,
            Signal::SIGTTIN => "SIGTTIN"@,
            Signal::SIGTTOU => "SIGTTOU"@,
            Signal::SIGIO => "SIGIO"@,
            Signal::SIGXCPU => "SIGXCPU"@,
            Signal::SIGXFSZ => "SIGXFSZ"@,
            Signal::SIGVTALRM => "SIGVTALRM"@,
            Signal::SIGPROF => "SIGPROF"@,
            Signal::SIGWINCH => "SIGWINCH"@,
            Signal::SIGINFO => "SIGINFO"@,
            Signal::SIGUSR1 => "SIGUSR1"@,
            Signal::SIGUSR2 => "SIGUSR2"@,
        }
    }

    /// The signal's number.
    pub fn as_raw(self) -> (n: i32)
        ensures
            n == self.number(),
    {
        match self {
            Signal::SIGHUP => 1,
            Signal::SIGINT => 2,
            Signal::SIGQUIT => 3,
            Signal::SIGILL => 4,
            Signal::SIGTRAP => 5,
            Signal::SIGABRT => 6,
            Signal::SIGEMT => 7,
            Signal::SIGFPE => 8,
            Signal::SIGKILL => 9,
            Signal::SIGBUS => 10,
            Signal::SIGSEGV => 11,
            Signal::SIGSYS => 12,
            Signal::SIGPIPE => 13,
            Signal::SIGALRM => 14,
            Signal::SIGTERM => 15,
            Signal::SIGURG => 16,
            Signal::SIGSTOP => 17,
            Signal::SIGTSTP => 18,
            Signal::SIGCONT => 19,
            Signal::SIGCHLD => 20,
            Signal::SIGTTIN => 21,
            Signal::SIGTTOU => 22,
            Signal::SIGIO => 23,
            Signal::SIGXCPU => 24,
            Signal::SIGXFSZ => 25,
            Signal::SIGVTALRM => 26,
            Signal::SIGPROF => 27,
            Signal::SIGWINCH => 28,
            Signal::SIGINFO => 29,
            Signal::SIGUSR1 => 30,
            Signal::SIGUSR2 => 31,
        }
    }

    /// The signal with the number `n`.
    pub fn try_from_raw(n: i32) -> (signal: Option<Signal>)
        ensures
            signal == signal_of(n as int),
    {
        match n {
            1 => Some(Signal::SIGHUP),
            2 => Some(Signal::SIGINT),
            3 => Some(Signal::SIGQUIT),
            4 => Some(Signal::SIGILL),
            5 => Some(Signal::SIGTRAP),
            6 => Some(Signal::SIGABRT),
            7 => Some(Signal::SIGEMT),
            8 => Some(Signal::SIGFPE),
            9 => Some(Signal::SIGKILL),
            10 => Some(Signal::SIGBUS),
            11 => Some(Signal::SIGSEGV),
            12 => Some(Signal::SIGSYS),
            13 => Some(Signal::SIGPIPE),
            14 => Some(Signal::SIGALRM),
            15 => Some(Signal::SIGTERM),
            16 => Some(Signal::SIGURG),
            17 => Some(Signal::SIGSTOP),
            18 => Some(Signal::SIGTSTP),
            19 => Some(Signal::SIGCONT),
            20 => Some(Signal::SIGCHLD),
            21 => Some(Signal::SIGTTIN),
            22 => Some(Signal::SIGTTOU),
            23 => Some(Signal::SIGIO),
            24 => Some(Signal::SIGXCPU),
            25 => Some(Signal::SIGXFSZ),
            26 => Some(Signal::SIGVTALRM),
            27 => Some(Signal::SIGPROF),
            28 => Some(Signal::SIGWINCH),
            29 => Some(Signal::SIGINFO),
            30 => Some(Signal::SIGUSR1),
            31 => Some(Signal::SIGUSR2),
            _ => None,
        }
    }
}

/// The signal's number.
pub fn signal_number(signal: Signal) -> (n: i32)
    ensures
        n == signal.number(),
{
    signal.as_raw()
}

/// The signal's full name.
pub fn signal_name(signal: Signal) -> (name: &'static str)
    ensures
        name@ == signal.full_name(),
{
    match signal {
        Signal::SIGHUP => "SIGHUP",
        Signal::SIGINT => "SIGINT",
        Signal::SIGQUIT => "SIGQUIT",
        Signal::SIGILL => "SIGILL",
        Signal::SIGTRAP => "SIGTRAP",
        Signal::SIGABRT => "SIGABRT",
        Signal::SIGEMT => "SIGEMT",
        Signal::SIGFPE => "SIGFPE",
        Signal::SIGKILL => "SIGKILL",
        Signal::SIGBUS => "SIGBUS",
        Signal::SIGSEGV => "SIGSEGV",
        Signal::SIGSYS => "SIGSYS",
        Signal::SIGPIPE => "SIGPIPE",
        Signal::SIGALRM => "SIGALRM",
        Signal::SIGTERM => "SIGTERM",
        Signal::SIGURG => "SIGURG",
        Signal::SIGSTOP => "SIGSTOP",
        Signal::SIGTSTP => "SIGTSTP",
        Signal::SIGCONT => "SIGCONT",
        Signal::SIGCHLD => "SIGCHLD",
        Signal::SIGTTIN => "SIGTTIN",
        Signal::SIGTTOU => "SIGTTOU",
        Signal::SIGIO => "SIGIO",
        Signal::SIGXCPU => "SIGXCPU",
        Signal::SIGXFSZ => "SIGXFSZ",
        Signal::SIGVTALRM => "SIGVTALRM",
        Signal::SIGPROF => "SIGPROF",
        Signal::SIGWINCH => "SIGWINCH",
        Signal::SIGINFO => "SIGINFO",
        Signal::SIGUSR1 => "SIGUSR1",
        Signal::SIGUSR2 => "SIGUSR2",
    }
}

/// A signal and its number determine each other; the numbers are 1 to 31.
pub proof fn law_number_round_trip(signal: Signal)
    ensures
        1 <= signal.number() <= 31,
        signal_of(signal.number()) == Some(signal),
{
}

/// Does `text` stand for `signal`: by its number, by its name, or by its name
/// without the `SIG`, in upper or lower case?
pub open spec fn denotes(text: Seq<char>, signal: Signal) -> bool {
    ||| text.len() > 0 && all_digits(text) && decimal_value(text) == signal.number()
    ||| same_letters(text, signal.full_name())
    ||| same_letters("SIG"@ + text, signal.full_name())
}

/// Reads a signal from its number or name.
pub fn parse_signal(text: &str) -> (signal: Result<Signal, TimeoutError>)
    ensures
        signal matches Ok(s) ==> denotes(text@, s),
        signal matches Err(e) ==> (e matches TimeoutError::InvalidSignal(t) && t@ == text@)
            && forall|s: Signal| !denotes(text@, s),
{
    let bare: Vec<char> = chars_of(text);
    let mut prefixed: Vec<char> = Vec::new();
    prefixed.push('S');
    prefixed.push('I');
    prefixed.push('G');
    let mut i: usize = 0;
    while i < bare.len()
        invariant
            i <= bare.len(),
            prefixed@ == seq!['S', 'I', 'G'] + bare@.take(i as int),
        decreases bare.len() - i,
    {
        prefixed.push(bare[i]);
        i += 1;
    }
    proof {
        reveal_strlit("SIG");
        assert("SIG"@ =~= seq!['S', 'I', 'G']);
        assert(prefixed@ =~= "SIG"@ + text@);
    }
    let number: Option<u64> = if bare.len() > 0 && digits_only(&bare, 0, bare.len()) {
        assert(bare@.subrange(0, bare.len() as int) =~= text@);
        number_at(&bare, 0, bare.len())
    } else {
        assert(bare@.subrange(0, bare.len() as int) =~= text@);
        None
    };
    let mut n: i32 = 1;
    while n <= 31
        invariant
            1 <= n <= 32,
            bare@ == text@,
            prefixed@ == "SIG"@ + text@,
            number == if text@.len() > 0 && all_digits(text@) {
                fit_u64(decimal_value(text@))
            } else {
                None
            },
            forall|s: Signal| s.number() < n ==> !denotes(text@, s),
        decreases 32 - n,
    {
        if let Some(signal) = Signal::try_from_raw(n) {
            proof {
                law_number_round_trip(signal);
            }
            let by_number: bool = match number {
                Some(v) => v == n as u64,
                None => false,
            };
            let name: &str = signal_name(signal);
            if by_number || letters_match(&bare, name) || letters_match(&prefixed, name) {
                return Ok(signal);
            }
            assert(forall|s: Signal| s.number() == n ==> s == signal) by {
                assert forall|s: Signal| s.number() == n implies s == signal by {
                    law_number_round_trip(s);
                }
            }
        }
        n += 1;
    }
    proof {
        assert forall|s: Signal| !denotes(text@, s) by {
            law_number_round_trip(s);
        }
    }
    Err(TimeoutError::InvalidSignal(text.to_owned()))
}

/// The letter at a place, in lower case; zero past the end.
spec fn letter(s: Seq<char>, i: int) -> int {
    if i < s.len() {
        lower(s[i]) as int
    } else {
        0
    }
}

/// A number that tells the names of signals apart, in either case.
spec fn mark(s: Seq<char>) -> int {
    letter(s, 0) + 2 * letter(s, 1) + 3 * letter(s, 2) + 4 * letter(s, 3) + 5 * letter(s, 4) + 6
        * letter(s, 5) + 7 * letter(s, 6) + 8 * letter(s, 7) + 9 * letter(s, 8)
}

/// The mark of each name.
spec fn mark_of(signal: Signal) -> int {
    match signal {
        Signal::SIGHUP => 2307,
        Signal::SIGINT => 2300,
        Signal::SIGQUIT => 3113,
        Signal::SIGILL => 2242,
        Signal::SIGTRAP => 3034,
        Signal::SIGABRT => 3008,
        Signal::SIGEMT => 2279,
        Signal::SIGFPE => 2208,
        Signal::SIGKILL => 2991,
        Signal::SIGBUS => 2301,
        Signal::SIGSEGV => 3043,
        Signal::SIGSYS => 2389,
        Signal::SIGPIPE => 2986,
        Signal::SIGALRM => 3009,
        Signal::SIGTERM => 3050,
        Signal::SIGURG => 2290,
        Signal::SIGSTOP => 3124,
        Signal::SIGTSTP => 3153,
        Signal::SIGCONT => 3057,
        Signal::SIGCHLD => 2898,
        Signal::SIGTTIN => 3078,
        Signal::SIGTTOU => 3163,
        Signal::SIGIO => 1609,
        Signal::SIGXCPU => 3100,
        Signal::SIGXFSZ => 3168,
        Signal::SIGVTALRM => 4917,
        Signal::SIGPROF => 3032,
        Signal::SIGWINCH => 3820,
        Signal::SIGINFO => 2993,
        Signal::SIGUSR1 => 2704,
        Signal::SIGUSR2 => 2711,
    }
}

/// What the names of signals look like.
proof fn lemma_name(signal: Signal)
    ensures
        mark(signal.full_name()) == mark_of(signal),
        signal.full_name().len() >= 5,
        lower(signal.full_name()[0]) == 's',
        lower(signal.full_name()[1]) == 'i',
        lower(signal.full_name()[2]) == 'g',
        !is_digit(lower(signal.full_name()[3])),
        !(lower(signal.full_name()[3]) == 's' && lower(signal.full_name()[4]) == 'i'),
{
    match signal {
        Signal::SIGHUP => {
            reveal_strlit("SIGHUP");
        },
        Signal::SIGINT => {
            reveal_strlit("SIGINT");
        },
        Signal::SIGQUIT => {
            reveal_strlit("SIGQUIT");
        },
        Signal::SIGILL => {
            reveal_strlit("SIGILL");
        },
        Signal::SIGTRAP => {
            reveal_strlit("SIGTRAP");
        },
        Signal::SIGABRT => {
            reveal_strlit("SIGABRT");
        },
        Signal::SIGEMT => {
            reveal_strlit("SIGEMT");
        },
        Signal::SIGFPE => {
            reveal_strlit("SIGFPE");
        },
        Signal::SIGKILL => {
            reveal_strlit("SIGKILL");
        },
        Signal::SIGBUS => {
            reveal_strlit("SIGBUS");
        },
        Signal::SIGSEGV => {
            reveal_strlit("SIGSEGV");
        },
        Signal::SIGSYS => {
            reveal_strlit("SIGSYS");
        },
        Signal::SIGPIPE => {
            reveal_strlit("SIGPIPE");
        },
        Signal::SIGALRM => {
            reveal_strlit("SIGALRM");
        },
        Signal::SIGTERM => {
            reveal_strlit("SIGTERM");
        },
        Signal::SIGURG => {
            reveal_strlit("SIGURG");
        },
        Signal::SIGSTOP => {
            reveal_strlit("SIGSTOP");
        },
        Signal::SIGTSTP => {
            reveal_strlit("SIGTSTP");
        },
        Signal::SIGCONT => {
            reveal_strlit("SIGCONT");
        },
        Signal::SIGCHLD => {
            reveal_strlit("SIGCHLD");
        },
        Signal::SIGTTIN => {
            reveal_strlit("SIGTTIN");
        },
        Signal::SIGTTOU => {
            reveal_strlit("SIGTTOU");
        },
        Signal::SIGIO => {
            reveal_strlit("SIGIO");
        },
        Signal::SIGXCPU => {
            reveal_strlit("SIGXCPU");
        },
        Signal::SIGXFSZ => {
            reveal_strlit("SIGXFSZ");
        },
        Signal::SIGVTALRM => {
            reveal_strlit("SIGVTALRM");
        },
        Signal::SIGPROF => {
            reveal_strlit("SIGPROF");
        },
        Signal::SIGWINCH => {
            reveal_strlit("SIGWINCH");
        },
        Signal::SIGINFO => {
            reveal_strlit("SIGINFO");
        },
        Signal::SIGUSR1 => {
            reveal_strlit("SIGUSR1");
        },
        Signal::SIGUSR2 => {
            reveal_strlit("SIGUSR2");
        },
    }
}

/// Texts that are the same but for case have the same mark and the same letters.
proof fn lemma_same_letters(a: Seq<char>, b: Seq<char>)
    requires
        same_letters(a, b),
    ensures
        a.len() == b.len(),
        forall|i: int| 0 <= i < a.len() ==> lower(#[trigger] a[i]) == lower(b[i]),
        mark(a) == mark(b),
{
    assert(lower_case(a).len() == a.len());
    assert(lower_case(b).len() == b.len());
    assert forall|i: int| 0 <= i < a.len() implies lower(#[trigger] a[i]) == lower(b[i]) by {
        assert(lower_case(a)[i] == lower(a[i]));
        assert(lower_case(b)[i] == lower(b[i]));
    }
}

/// A text stands for one signal at most.
pub proof fn law_text_denotes_one_signal(text: Seq<char>, a: Signal, b: Signal)
    requires
        denotes(text, a),
        denotes(text, b),
    ensures
        a == b,
{
    lemma_name(a);
    lemma_name(b);
    law_number_round_trip(a);
    law_number_round_trip(b);
    reveal_strlit("SIG");
    let prefixed = "SIG"@ + text;
    let by_number = text.len() > 0 && all_digits(text);
    if same_letters(text, a.full_name()) {
        lemma_same_letters(text, a.full_name());
    }
    if same_letters(text, b.full_name()) {
        lemma_same_letters(text, b.full_name());
    }
    if same_letters(prefixed, a.full_name()) {
        lemma_same_letters(prefixed, a.full_name());
    }
    if same_letters(prefixed, b.full_name()) {
        lemma_same_letters(prefixed, b.full_name());
    }
    if by_number {
        assert(is_digit(text[0]));
        assert(lower(text[0]) == text[0]);
        assert(prefixed[3] == text[0]);
        assert(!same_letters(text, a.full_name()) && !same_letters(text, b.full_name()));
        assert(!same_letters(prefixed, a.full_name()) && !same_letters(prefixed, b.full_name()));
    } else if text.len() >= 2 {
        assert(prefixed[3] == text[0] && prefixed[4] == text[1]);
    }
}

/// Every signal can be written by its number, by its name, or by its name
/// without `SIG`.
pub proof fn law_every_signal_can_be_written(signal: Signal, text: Seq<char>)
    ensures
        denotes(decimal(signal.number() as nat), signal),
        denotes(signal.full_name(), signal),
        "SIG"@ + text == signal.full_name() ==> denotes(text, signal),
{
    law_number_round_trip(signal);
    law_decimal_round_trip(signal.number() as nat);
}

/// Each signal has the number that Darwin gives it, and its own name.
pub proof fn law_signals_have_darwins_numbers(signal: Signal)
    ensures
        match signal {
            Signal::SIGHUP => 1 == signal.number() && signal.full_name() == "SIGHUP"@,
            Signal::SIGINT => 2 == signal.number() && signal.full_name() == "SIGINT"@,
            Signal::SIGQUIT => 3 == signal.number() && signal.full_name() == "SIGQUIT"@,
            Signal::SIGILL => 4 == signal.number() && signal.full_name() == "SIGILL"@,
            Signal::SIGTRAP => 5 == signal.number() && signal.full_name() == "SIGTRAP"@,
            Signal::SIGABRT => 6 == signal.number() && signal.full_name() == "SIGABRT"@,
            Signal::SIGEMT => 7 == signal.number() && signal.full_name() == "SIGEMT"@,
            Signal::SIGFPE => 8 == signal.number() && signal.full_name() == "SIGFPE"@,
            Signal::SIGKILL => 9 == signal.number() && signal.full_name() == "SIGKILL"@,
            Signal::SIGBUS => 10 == signal.number() && signal.full_name() == "SIGBUS"@,
            Signal::SIGSEGV => 11 == signal.number() && signal.full_name() == "SIGSEGV"@,
            Signal::SIGSYS => 12 == signal.number() && signal.full_name() == "SIGSYS"@,
            Signal::SIGPIPE => 13 == signal.number() && signal.full_name() == "SIGPIPE"@,
            Signal::SIGALRM => 14 == signal.number() && signal.full_name() == "SIGALRM"@,
            Signal::SIGTERM => 15 == signal.number() && signal.full_name() == "SIGTERM"@,
            Signal::SIGURG => 16 == signal.number() && signal.full_name() == "SIGURG"@,
            Signal::SIGSTOP => 17 == signal.number() && signal.full_name() == "SIGSTOP"@,
            Signal::SIGTSTP => 18 == signal.number() && signal.full_name() == "SIGTSTP"@,
            Signal::SIGCONT => 19 == signal.number() && signal.full_name() == "SIGCONT"@,
            Signal::SIGCHLD => 20 == signal.number() && signal.full_name() == "SIGCHLD"@,
            Signal::SIGTTIN => 21 == signal.number() && signal.full_name() == "SIGTTIN"@,
            Signal::SIGTTOU => 22 == signal.number() && signal.full_name() == "SIGTTOU"@,
            Signal::SIGIO => 23 == signal.number() && signal.full_name() == "SIGIO"@,
            Signal::SIGXCPU => 24 == signal.number() && signal.full_name() == "SIGXCPU"@,
            Signal::SIGXFSZ => 25 == signal.number() && signal.full_name() == "SIGXFSZ"@,
            Signal::SIGVTALRM => 26 == signal.number() && signal.full_name() == "SIGVTALRM"@,
            Signal::SIGPROF => 27 == signal.number() && signal.full_name() == "SIGPROF"@,
            Signal::SIGWINCH => 28 == signal.number() && signal.full_name() == "SIGWINCH"@,
            Signal::SIGINFO => 29 == signal.number() && signal.full_name() == "SIGINFO"@,
            Signal::SIGUSR1 => 30 == signal.number() && signal.full_name() == "SIGUSR1"@,
            Signal::SIGUSR2 => 31 == signal.number() && signal.full_name() == "SIGUSR2"@,
        },
{
}

/// A number from 1 to 31 is that of one signal, and no other number of any.
pub proof fn law_every_number_has_its_signal(n: int)
    ensures
        1 <= n <= 31 ==> (signal_of(n) matches Some(signal) && signal.number() == n),
        !(1 <= n <= 31) ==> signal_of(n) is None,
{
}

/// A text is the signal with its number if it is all digits, and otherwise the one
/// with its name, in either case and with or without the `SIG`; no other text is
/// any signal.
pub proof fn law_text_is_a_number_or_a_name(text: Seq<char>, signal: Signal)
    ensures
        text.len() > 0 && all_digits(text) && decimal_value(text) == signal.number() ==> denotes(
            text,
            signal,
        ),
        same_letters(text, signal.full_name()) ==> denotes(text, signal),
        same_letters(seq!['S', 'I', 'G'] + text, signal.full_name()) ==> denotes(text, signal),
        denotes(text, signal) ==> {
            ||| text.len() > 0 && all_digits(text) && decimal_value(text) == signal.number()
            ||| same_letters(text, signal.full_name())
            ||| same_letters(seq!['S', 'I', 'G'] + text, signal.full_name())
        },
{
    reveal_strlit("SIG");
    assert("SIG"@ =~= seq!['S', 'I', 'G']);
}

} // verus!

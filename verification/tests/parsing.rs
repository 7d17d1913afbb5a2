//! Options as users write them.

use procguard::args::{Confine, OwnedArgs};
use procguard::error::{InternalError, TimeoutError};
use procguard::notice::Notice;
use procguard::rlimit::{parse_cpu_percent, parse_cpu_time, parse_mem_limit, ResourceLimits};
use procguard::signal::{signal_name, signal_number, Signal};
use procguard::throttle::CpuThrottleConfig;
use procguard::time::Duration;
use procguard::{parse_duration, parse_signal, RunConfig};

fn ns(text: &str) -> Option<u128> {
    parse_duration(text)
        .ok()
        .map(|d| d.as_secs() as u128 * 1_000_000_000 + d.subsec_nanos() as u128)
}

#[test]
fn library_parse_duration_works() {
    let dur = parse_duration("30s").expect("should parse");
    assert_eq!(dur, Duration::from_secs(30));

    let dur = parse_duration("1.5m").expect("should parse");
    assert_eq!(dur, Duration::from_secs(90));
}

#[test]
fn library_parse_signal_works() {
    let sig = parse_signal("TERM").expect("should parse");
    assert_eq!(sig, Signal::SIGTERM);

    let sig = parse_signal("9").expect("should parse");
    assert_eq!(sig, Signal::SIGKILL);
}

#[test]
fn test_duration_seconds() {
    assert_eq!(ns("1s"), Some(1_000_000_000));
}

#[test]
fn test_duration_seconds_implicit() {
    assert_eq!(ns("1"), Some(1_000_000_000));
}

#[test]
fn test_duration_minutes() {
    assert_eq!(ns("1m"), Some(60_000_000_000));
}

#[test]
fn test_duration_hours() {
    assert_eq!(ns("1h"), Some(3_600_000_000_000));
}

#[test]
fn test_duration_days() {
    assert_eq!(ns("1d"), Some(86_400_000_000_000));
}

#[test]
fn test_duration_case_insensitive() {
    assert_eq!(ns("1S"), ns("1s"));
    assert_eq!(ns("1M"), ns("1m"));
    assert_eq!(ns("1.5Ms"), ns("1.5mS"));
}

#[test]
fn test_negative_duration() {
    assert!(matches!(parse_duration("-5"), Err(TimeoutError::InvalidDuration(t)) if t == "-5"));
}

#[test]
fn test_invalid_suffix() {
    let error = parse_duration("100ns").err().expect("nanoseconds are not supported");
    assert_eq!(error.exit_code(), 125);
    assert_eq!(error.message(), "invalid duration: '100ns'");
}

#[test]
fn test_milliseconds_suffix() {
    assert_eq!(ns("100ms"), Some(100_000_000));
}

#[test]
fn test_microseconds_suffix() {
    assert_eq!(ns("50ms"), Some(50_000_000));
    assert_eq!(ns("250us"), Some(250_000));
}

#[test]
fn fractions_of_durations() {
    assert_eq!(ns("0.3s"), Some(300_000_000));
    assert_eq!(ns("0.001"), Some(1_000_000));
    assert_eq!(ns(".5"), Some(500_000_000));
    assert_eq!(ns("5."), Some(5_000_000_000));
    assert_eq!(ns("1.5h"), Some(5_400_000_000_000));
    assert_eq!(ns("0.0000000019s"), Some(1));
    assert_eq!(ns("1.25us"), Some(1_250));
    assert_eq!(ns("0.123456789123d"), Some(10_666_666_569_600));
}

#[test]
fn no_durations() {
    for text in [
        "", ".", "s", ".s", "1.2.3", "1,5", " 1", "1 ", "1 s", "+1", "1e3", "1ss", "1mss", "0x10",
        "one", "1min",
    ] {
        assert!(parse_duration(text).is_err(), "{text:?} is no duration");
    }
}

#[test]
fn largest_durations() {
    assert_eq!(ns("18446744073709551615"), Some(18_446_744_073_709_551_615_000_000_000));
    assert!(parse_duration("18446744073709551616").is_err());
    assert!(parse_duration("18446744073709551615m").is_err());
    assert_eq!(ns("18446744073709551615ms"), Some(18_446_744_073_709_551_615_000_000));
}

#[test]
fn test_invalid_signal_number() {
    let error = parse_signal("0").err().expect("zero is no signal");
    assert_eq!(error.exit_code(), 125);
    assert!(parse_signal("32").is_err());
    assert!(parse_signal("-9").is_err());
    assert!(parse_signal("99999999999999999999").is_err());
    assert!(parse_signal("").is_err());
    assert!(parse_signal("SIG").is_err());
    assert!(parse_signal("SIGSIGTERM").is_err());
}

#[test]
fn every_signal_is_read_back() {
    for n in 1..=31 {
        let signal = Signal::try_from_raw(n).expect("a signal");
        let name = signal_name(signal);
        assert_eq!(signal_number(signal), n);
        assert_eq!(parse_signal(&n.to_string()).unwrap(), signal);
        assert_eq!(parse_signal(name).unwrap(), signal);
        assert_eq!(parse_signal(&name[3..]).unwrap(), signal);
        assert_eq!(parse_signal(&name.to_lowercase()).unwrap(), signal);
    }
    assert_eq!(parse_signal("015").unwrap(), Signal::SIGTERM);
    assert_eq!(signal_number(Signal::SIGUSR1), 30);
    assert_eq!(signal_number(Signal::SIGCHLD), 20);
}

#[test]
fn memory_sizes() {
    assert_eq!(parse_mem_limit("1024").unwrap(), 1024);
    assert_eq!(parse_mem_limit("64K").unwrap(), 65_536);
    assert_eq!(parse_mem_limit("64KB").unwrap(), 65_536);
    assert_eq!(parse_mem_limit("512M").unwrap(), 536_870_912);
    assert_eq!(parse_mem_limit("512mb").unwrap(), 536_870_912);
    assert_eq!(parse_mem_limit("2G").unwrap(), 2_147_483_648);
    assert_eq!(parse_mem_limit("2Gb").unwrap(), 2_147_483_648);
    assert_eq!(parse_mem_limit("1T").unwrap(), 1_099_511_627_776);
    assert_eq!(parse_mem_limit("1TB").unwrap(), 1_099_511_627_776);
    assert_eq!(parse_mem_limit("0").unwrap(), 0);
    assert_eq!(parse_mem_limit("18446744073709551615").unwrap(), u64::MAX);
    assert_eq!(parse_mem_limit("16777215T").unwrap(), 16_777_215 << 40);
    for text in [
        "", "-1", "K", "1X", "1KK", "1.5G", " 1", "1 K", "1B", "16777216T",
        "18446744073709551616",
    ] {
        assert!(
            matches!(parse_mem_limit(text), Err(TimeoutError::InvalidMemoryLimit(t)) if t == text),
            "{text:?} is no memory size"
        );
    }
}

#[test]
fn shares_of_processor_time() {
    assert_eq!(parse_cpu_percent("50").unwrap(), 50);
    assert_eq!(parse_cpu_percent("1400").unwrap(), 1400);
    assert_eq!(parse_cpu_percent("+7").unwrap(), 7);
    for text in ["0", "", "-1", "5%", "1.5", "4294967296", "+"] {
        assert!(
            matches!(parse_cpu_percent(text), Err(TimeoutError::InvalidCpuPercent(t)) if t == text)
        );
    }
}

#[test]
fn processor_time_is_a_duration() {
    assert_eq!(parse_cpu_time("5m").unwrap(), Duration::from_secs(300));
    assert!(matches!(parse_cpu_time("5x"), Err(TimeoutError::InvalidDuration(t)) if t == "5x"));
}

fn options() -> OwnedArgs {
    OwnedArgs {
        signal: "TERM".to_string(),
        kill_after: None,
        foreground: false,
        verbose: false,
        quiet: false,
        timeout_exit_code: None,
        on_timeout: None,
        on_timeout_limit: "5s".to_string(),
        confine: Confine::Wall,
        retry: None,
        retry_delay: None,
        retry_backoff: None,
        heartbeat: None,
        stdin_timeout: None,
        stdin_passthrough: false,
        mem_limit: None,
        cpu_time: None,
        cpu_percent: None,
    }
}

fn some(text: &str) -> Option<String> {
    Some(text.to_string())
}

fn read(options: &OwnedArgs, duration: &str) -> Result<RunConfig, TimeoutError> {
    let mut warnings: Vec<Notice> = Vec::new();
    let config = RunConfig::from_args(options, duration, &mut warnings);
    assert!(warnings.is_empty());
    config
}

#[test]
fn default_configuration() {
    let config = RunConfig::default();
    assert_eq!(config.timeout, Duration::from_secs(30));
    assert_eq!(config.signal, Signal::SIGTERM);
    assert_eq!(config.kill_after, None);
    assert!(!config.foreground && !config.verbose && !config.quiet && !config.stdin_passthrough);
    assert_eq!(config.timeout_exit_code, 124);
    assert_eq!(config.on_timeout, None);
    assert_eq!(config.on_timeout_limit, Duration::from_secs(5));
    assert_eq!(config.confine, Confine::Wall);
    assert_eq!(config.retry_count, 0);
    assert!(config.retry_delay.is_zero());
    assert_eq!(config.retry_backoff, 1);
    assert_eq!(config.heartbeat, None);
    assert_eq!(config.stdin_timeout, None);
    assert!(config.limits.is_empty());
    assert_eq!(config.limits, ResourceLimits::default());
    assert_eq!(config.cpu_throttle, None);
}

#[test]
fn all_options_are_read() {
    let options = OwnedArgs {
        signal: "hup".to_string(),
        kill_after: some("2s"),
        foreground: true,
        verbose: true,
        quiet: false,
        timeout_exit_code: Some(9),
        on_timeout: some("echo %p"),
        on_timeout_limit: "100ms".to_string(),
        confine: Confine::Active,
        retry: some("7"),
        retry_delay: some("1.5s"),
        retry_backoff: some("3x"),
        heartbeat: some("10"),
        stdin_timeout: some("20"),
        stdin_passthrough: true,
        mem_limit: some("1K"),
        cpu_time: some("1m"),
        cpu_percent: some("50"),
    };
    let config = read(&options, "1h").expect("should read");
    assert_eq!(config.timeout, Duration::from_secs(3600));
    assert_eq!(config.signal, Signal::SIGHUP);
    assert_eq!(config.kill_after, Some(Duration::from_secs(2)));
    assert!(config.foreground && config.verbose && !config.quiet && config.stdin_passthrough);
    assert_eq!(config.timeout_exit_code, 9);
    assert_eq!(config.on_timeout, some("echo %p"));
    assert_eq!(config.on_timeout_limit, Duration::from_millis(100));
    assert_eq!(config.confine, Confine::Active);
    assert_eq!(config.retry_count, 7);
    assert_eq!(config.retry_delay, Duration::from_millis(1500));
    assert_eq!(config.retry_backoff, 3);
    assert_eq!(config.heartbeat, Some(Duration::from_secs(10)));
    assert_eq!(config.stdin_timeout, Some(Duration::from_secs(20)));
    assert_eq!(config.limits.mem_bytes, Some(1024));
    assert_eq!(config.limits.cpu_time, Some(Duration::from_secs(60)));
    assert_eq!(
        config.cpu_throttle,
        Some(CpuThrottleConfig { percent: 50, interval_ns: 100_000_000, sleep_ns: 50_000_000 })
    );
    assert!(config.needs_monitor() && config.is_loud());
}

#[test]
fn missing_options_have_defaults() {
    let config = read(&options(), "0").expect("should read");
    assert!(config.timeout.is_zero());
    assert_eq!(config.timeout_exit_code, 124);
    assert_eq!(config.retry_count, 0);
    assert_eq!(config.retry_backoff, 1);
    assert!(config.retry_delay.is_zero());
    assert_eq!(config.cpu_throttle, None);
    assert!(!config.needs_monitor());
}

#[test]
fn backoff_is_read_with_or_without_x() {
    let backoff = |text: &str| {
        read(&OwnedArgs { retry_backoff: some(text), ..options() }, "1s")
            .ok()
            .map(|config| config.retry_backoff)
    };
    assert_eq!(backoff("2"), Some(2));
    assert_eq!(backoff("2x"), Some(2));
    assert_eq!(backoff("2X"), Some(2));
    assert_eq!(backoff("2Xx"), Some(2));
    assert_eq!(backoff("2xxx"), Some(2));
    assert_eq!(backoff("0x"), Some(1));
    assert_eq!(backoff("0"), Some(1));
    assert_eq!(backoff("1"), Some(1));
    assert_eq!(backoff("2xX"), None);
    assert_eq!(backoff("x"), None);
    assert_eq!(backoff("1.5x"), None);
}

#[test]
fn each_bad_option_is_reported() {
    let text = |options: &OwnedArgs, duration: &str| {
        read(options, duration).err().expect("should fail").message()
    };
    assert_eq!(text(&options(), "1y"), "invalid duration: '1y'");
    let with = |change: fn(&mut OwnedArgs)| {
        let mut options = options();
        change(&mut options);
        read(&options, "1s").err().expect("should fail")
    };
    assert!(matches!(
        with(|o| o.signal = "NONE".to_string()),
        TimeoutError::InvalidSignal(t) if t == "NONE"
    ));
    assert!(matches!(
        with(|o| o.kill_after = some("a")),
        TimeoutError::InvalidDuration(t) if t == "a"
    ));
    assert!(matches!(
        with(|o| o.on_timeout_limit = "b".to_string()),
        TimeoutError::InvalidDuration(t) if t == "b"
    ));
    assert!(matches!(
        with(|o| o.retry = some("c")),
        TimeoutError::Internal(InternalError::InvalidRetryCount(t)) if t == "c"
    ));
    assert!(matches!(
        with(|o| o.retry = some("4294967296")),
        TimeoutError::Internal(InternalError::InvalidRetryCount(_))
    ));
    assert!(matches!(
        with(|o| o.retry_delay = some("d")),
        TimeoutError::InvalidDuration(t) if t == "d"
    ));
    assert!(matches!(
        with(|o| o.retry_backoff = some("ex")),
        TimeoutError::Internal(InternalError::InvalidRetryBackoff(t)) if t == "ex"
    ));
    assert!(matches!(
        with(|o| o.heartbeat = some("f")),
        TimeoutError::InvalidDuration(t) if t == "f"
    ));
    assert!(matches!(
        with(|o| o.stdin_timeout = some("g")),
        TimeoutError::InvalidDuration(t) if t == "g"
    ));
    assert!(matches!(
        with(|o| o.mem_limit = some("h")),
        TimeoutError::InvalidMemoryLimit(t) if t == "h"
    ));
    assert!(matches!(
        with(|o| o.cpu_time = some("i")),
        TimeoutError::InvalidDuration(t) if t == "i"
    ));
    assert!(matches!(
        with(|o| o.cpu_percent = some("j")),
        TimeoutError::InvalidCpuPercent(t) if t == "j"
    ));
    assert!(matches!(
        with(|o| o.stdin_passthrough = true),
        TimeoutError::Internal(InternalError::PassthroughNeedsTimeout)
    ));
}

#[test]
fn the_first_bad_option_is_reported() {
    let bad = OwnedArgs {
        signal: "s".to_string(),
        kill_after: some("k"),
        retry: some("r"),
        cpu_percent: some("p"),
        ..options()
    };
    assert!(matches!(read(&bad, "t"), Err(TimeoutError::InvalidDuration(t)) if t == "t"));
    assert!(matches!(read(&bad, "1"), Err(TimeoutError::InvalidSignal(t)) if t == "s"));
    let bad = OwnedArgs { signal: "1".to_string(), ..bad };
    assert!(matches!(read(&bad, "1"), Err(TimeoutError::InvalidDuration(t)) if t == "k"));
    let bad = OwnedArgs { kill_after: None, ..bad };
    assert!(matches!(
        read(&bad, "1"),
        Err(TimeoutError::Internal(InternalError::InvalidRetryCount(_)))
    ));
}

#[test]
fn warnings_are_added_to_those_there_are() {
    let mut warnings = vec![Notice::HookTimedOut];
    let low = OwnedArgs { cpu_percent: some("9"), stdin_passthrough: true, ..options() };
    /* the warning comes before the error */
    assert!(RunConfig::from_args(&low, "1s", &mut warnings).is_err());
    let slow = OwnedArgs { on_timeout: some("x"), ..options() };
    assert!(RunConfig::from_args(&slow, "1s", &mut warnings).is_ok());
    /* no limit, no warning; nor where the hook is no longer than the command */
    assert!(RunConfig::from_args(&slow, "0", &mut warnings).is_ok());
    assert!(RunConfig::from_args(&slow, "5s", &mut warnings).is_ok());
    let lines: Vec<String> = warnings.iter().map(|w| w.message()).collect();
    assert_eq!(
        lines,
        vec![
            "timeout: on-timeout hook timed out, killing".to_string(),
            "warning: --cpu-percent 9 is very low; may cause stuttery execution".to_string(),
            "warning: --on-timeout-limit (5s) exceeds main timeout (1s)".to_string(),
        ]
    );
}

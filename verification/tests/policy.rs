use situwaition::runtime::AsyncWaiter;
use situwaition::sync::SyncWaiter;
use situwaition::text::decimal_string;
use situwaition::{
    Duration, SituwaitionBase, SituwaitionError, SituwaitionOpts, WaiterCreationError,
    DEFAULT_SITUWAITION_CHECK_INTERVAL_MS, DEFAULT_SITUWAITION_TIMEOUT_MS,
};

fn passes() -> Result<bool, String> {
    Ok(true)
}

async fn passes_later() -> Result<bool, String> {
    Ok(true)
}

#[test]
fn default_settings_are_three_seconds_and_a_quarter() {
    let opts = SituwaitionOpts::default();
    assert_eq!(opts.timeout, Duration::from_millis(3_000));
    assert_eq!(opts.check_interval, Duration::from_millis(250));
    assert_eq!(opts.check_cooldown, None);
    assert_eq!(DEFAULT_SITUWAITION_TIMEOUT_MS, 3_000);
    assert_eq!(DEFAULT_SITUWAITION_CHECK_INTERVAL_MS, 250);
}

#[test]
fn durations_count_nanoseconds() {
    assert_eq!(Duration::from_millis(250).as_nanos(), 250_000_000);
    assert_eq!(Duration::from_secs(3).as_nanos(), 3_000_000_000);
    assert_eq!(Duration::from_secs(3), Duration::from_millis(3_000));
    assert_eq!(Duration::from_nanos(1_999_999).as_millis(), 1);
    assert_eq!(Duration::from_nanos(2_000_000).as_millis(), 2);
    assert_eq!(Duration::from_millis(u64::MAX).as_millis(), u128::from(u64::MAX));
    assert_eq!(Duration::from_secs(u64::MAX).as_nanos(), u128::from(u64::MAX) * 1_000_000_000);
}

#[test]
fn durations_split_into_seconds_and_the_rest() {
    let span = Duration::from_nanos(3_250_000_007);
    assert_eq!(span.as_secs(), 3);
    assert_eq!(span.subsec_nanos(), 250_000_007);
    assert_eq!(Duration::from_nanos(999_999_999).as_secs(), 0);
    assert_eq!(Duration::from_nanos(999_999_999).subsec_nanos(), 999_999_999);
    assert_eq!(Duration::from_secs(u64::MAX).as_secs(), u128::from(u64::MAX));
    assert_eq!(Duration::from_secs(u64::MAX).subsec_nanos(), 0);
    assert_eq!(Duration::from_nanos(u128::MAX).as_secs(), u128::MAX / 1_000_000_000);
}

#[test]
fn durations_compare_by_length() {
    let short = Duration::from_millis(249);
    let long = Duration::from_millis(250);
    assert!(long.exceeds(&short));
    assert!(!short.exceeds(&long));
    assert!(!long.exceeds(&long));
    assert!(short < long);
    assert!(Duration::from_nanos(1) > Duration::from_nanos(0));
}

#[test]
fn timeout_below_default_interval_is_invalid() {
    let made = SituwaitionOpts::for_timeout(Duration::from_millis(100));
    match made {
        Err(WaiterCreationError::InvalidTimeout(text)) => assert_eq!(
            text,
            "supplied timeout (100ms) is shorter the default timeout (250ms)"
        ),
        other => panic!("a timeout of 100ms was not refused: {:?}", other),
    }
}

#[test]
fn timeout_text_rounds_down_to_whole_milliseconds() {
    let made = SituwaitionOpts::for_timeout(Duration::from_nanos(249_999_999));
    match made {
        Err(WaiterCreationError::InvalidTimeout(text)) => assert_eq!(
            text,
            "supplied timeout (249ms) is shorter the default timeout (250ms)"
        ),
        other => panic!("a timeout just under 250ms was not refused: {:?}", other),
    }
    let made = SituwaitionOpts::for_timeout(Duration::from_nanos(0));
    match made {
        Err(WaiterCreationError::InvalidTimeout(text)) => assert_eq!(
            text,
            "supplied timeout (0ms) is shorter the default timeout (250ms)"
        ),
        other => panic!("a timeout of nothing was not refused: {:?}", other),
    }
}

#[test]
fn timeout_of_exactly_the_default_interval_is_valid() {
    let opts = SituwaitionOpts::for_timeout(Duration::from_millis(250)).expect("failed to create");
    assert_eq!(opts.timeout, Duration::from_millis(250));
    assert_eq!(opts.check_interval, Duration::from_millis(250));
    assert_eq!(opts.check_cooldown, None);
}

#[test]
fn interval_above_default_timeout_is_invalid() {
    let made = SituwaitionOpts::for_check_interval(Duration::from_millis(12_345));
    match made {
        Err(WaiterCreationError::InvalidInterval(text)) => assert_eq!(
            text,
            "supplied check interval (12345ms) is larger than the default timeout (3000ms)"
        ),
        other => panic!("an interval of 12345ms was not refused: {:?}", other),
    }
    let made = SituwaitionOpts::for_check_interval(Duration::from_nanos(3_000_000_001));
    assert!(matches!(made, Err(WaiterCreationError::InvalidInterval(_))));
}

#[test]
fn interval_of_exactly_the_default_timeout_is_valid() {
    let opts =
        SituwaitionOpts::for_check_interval(Duration::from_millis(3_000)).expect("failed to create");
    assert_eq!(opts.timeout, Duration::from_millis(3_000));
    assert_eq!(opts.check_interval, Duration::from_millis(3_000));
    assert_eq!(opts.check_cooldown, None);
    let opts = SituwaitionOpts::for_check_interval(Duration::from_nanos(0)).expect("failed to create");
    assert_eq!(opts.check_interval, Duration::from_nanos(0));
}

#[test]
fn numbers_are_written_in_decimal() {
    assert_eq!(decimal_string(0), "0");
    assert_eq!(decimal_string(7), "7");
    assert_eq!(decimal_string(9), "9");
    assert_eq!(decimal_string(10), "10");
    assert_eq!(decimal_string(1_234_567_890), "1234567890");
    assert_eq!(decimal_string(100_000), "100000");
    assert_eq!(decimal_string(u128::MAX), "340282366920938463463374607431768211455");
    for n in 0u128..2_000 {
        assert_eq!(decimal_string(n), format!("{}", n));
    }
}

#[test]
fn large_numbers_are_written_out_in_full() {
    let made = SituwaitionOpts::for_check_interval(Duration::from_secs(u64::MAX));
    match made {
        Err(WaiterCreationError::InvalidInterval(text)) => assert_eq!(
            text,
            "supplied check interval (18446744073709551615000ms) is larger than the default timeout (3000ms)"
        ),
        other => panic!("the longest interval was not refused: {:?}", other),
    }
}

#[test]
fn sync_waiter_constructors_set_the_settings() {
    let waiter = SyncWaiter::from_fn(passes);
    assert_eq!(waiter.options().timeout, Duration::from_millis(3_000));
    assert_eq!(waiter.options().check_interval, Duration::from_millis(250));
    assert_eq!(waiter.options().check_cooldown, None);

    let opts = SituwaitionOpts {
        timeout: Duration::from_millis(7),
        check_interval: Duration::from_millis(11),
        check_cooldown: Some(Duration::from_millis(13)),
    };
    let waiter = SyncWaiter::with_opts(passes, opts);
    assert_eq!(waiter.options().timeout, Duration::from_millis(7));
    assert_eq!(waiter.options().check_interval, Duration::from_millis(11));
    assert_eq!(waiter.options().check_cooldown, Some(Duration::from_millis(13)));

    let waiter = SyncWaiter::with_timeout(passes, Duration::from_millis(500)).expect("failed to create");
    assert_eq!(waiter.options().timeout, Duration::from_millis(500));
    assert_eq!(waiter.options().check_interval, Duration::from_millis(250));

    let waiter =
        SyncWaiter::with_check_interval(passes, Duration::from_millis(100)).expect("failed to create");
    assert_eq!(waiter.options().timeout, Duration::from_millis(3_000));
    assert_eq!(waiter.options().check_interval, Duration::from_millis(100));
}

#[test]
fn sync_waiter_constructors_refuse_bad_settings() {
    assert!(matches!(
        SyncWaiter::with_timeout(passes, Duration::from_millis(249)),
        Err(WaiterCreationError::InvalidTimeout(_))
    ));
    assert!(matches!(
        SyncWaiter::with_check_interval(passes, Duration::from_millis(3_001)),
        Err(WaiterCreationError::InvalidInterval(_))
    ));
}

#[test]
fn async_waiter_constructors_set_the_settings() {
    let waiter = AsyncWaiter::from_factory(passes_later);
    assert_eq!(waiter.opts.timeout, Duration::from_millis(3_000));
    assert_eq!(waiter.opts.check_interval, Duration::from_millis(250));
    assert_eq!(waiter.opts.check_cooldown, None);

    let opts = SituwaitionOpts {
        timeout: Duration::from_millis(7),
        check_interval: Duration::from_millis(11),
        check_cooldown: Some(Duration::from_millis(13)),
    };
    let waiter = AsyncWaiter::with_opts(passes_later, opts);
    assert_eq!(waiter.options().timeout, Duration::from_millis(7));
    assert_eq!(waiter.options().check_interval, Duration::from_millis(11));
    assert_eq!(waiter.options().check_cooldown, Some(Duration::from_millis(13)));

    let waiter =
        AsyncWaiter::with_timeout(passes_later, Duration::from_millis(500)).expect("failed to create");
    assert_eq!(waiter.opts.timeout, Duration::from_millis(500));
    assert_eq!(waiter.opts.check_interval, Duration::from_millis(250));

    let waiter = AsyncWaiter::with_check_interval(passes_later, Duration::from_millis(100))
        .expect("failed to create");
    assert_eq!(waiter.opts.timeout, Duration::from_millis(3_000));
    assert_eq!(waiter.opts.check_interval, Duration::from_millis(100));
}

#[test]
fn async_waiter_constructors_refuse_bad_settings() {
    assert!(matches!(
        AsyncWaiter::with_timeout(passes_later, Duration::from_millis(100)),
        Err(WaiterCreationError::InvalidTimeout(_))
    ));
    assert!(matches!(
        AsyncWaiter::with_check_interval(passes_later, Duration::from_secs(4)),
        Err(WaiterCreationError::InvalidInterval(_))
    ));
}

#[test]
fn set_options_replaces_the_settings() {
    let mut waiter = SyncWaiter::from_fn(passes);
    let done = waiter.set_options(|opts: &SituwaitionOpts| SituwaitionOpts {
        check_cooldown: Some(Duration::from_millis(5)),
        ..*opts
    });
    assert!(matches!(done, Ok(())));
    assert_eq!(waiter.options().timeout, Duration::from_millis(3_000));
    assert_eq!(waiter.options().check_interval, Duration::from_millis(250));
    assert_eq!(waiter.options().check_cooldown, Some(Duration::from_millis(5)));
    assert!(waiter.take_check().is_ok());

    let mut waiter = AsyncWaiter::from_factory(passes_later);
    let done = waiter.set_options(|opts: &SituwaitionOpts| SituwaitionOpts {
        timeout: Duration::from_secs(9),
        ..*opts
    });
    assert!(matches!(done, Ok(())));
    assert_eq!(waiter.opts.timeout, Duration::from_secs(9));
    assert_eq!(waiter.opts.check_interval, Duration::from_millis(250));
}

#[test]
fn a_waiter_gives_its_check_away_once() {
    let mut waiter = SyncWaiter::from_fn(passes);
    let check_fn = waiter.take_check().expect("a fresh waiter holds its check");
    assert_eq!(check_fn(), Ok(true));
    match waiter.take_check() {
        Err(SituwaitionError::UnexpectedError(text)) => assert_eq!(text, "no check fn specified"),
        _ => panic!("the check was given away twice"),
    }
    assert_eq!(waiter.options().timeout, Duration::from_millis(3_000));
}

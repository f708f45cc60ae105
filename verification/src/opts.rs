//! The settings of a wait, and the checks made on them when a waiter is built
//! from a single setting.

use vstd::prelude::*;
use vstd::string::*;

use crate::error::WaiterCreationError;
use crate::text::{decimal, decimal_string};
use crate::time::{Duration, NANOS_PER_MILLI};

verus! {

/// The overall timeout of a wait that sets none, in milliseconds.
pub const DEFAULT_SITUWAITION_TIMEOUT_MS: u64 = 3_000;

/// The pause between checks of a wait that sets none, in milliseconds.
pub const DEFAULT_SITUWAITION_CHECK_INTERVAL_MS: u64 = 250;

/// The settings of a wait.
#[derive(Debug, Clone, Copy)]
pub struct SituwaitionOpts {
    /// The time allowed from the first attempt to the final outcome.
    pub timeout: Duration,
    /// The pause between an attempt that failed and the next one. In the
    /// threaded strategy it is the pause between two looks at the outcome.
    pub check_interval: Duration,
    /// A further pause after an attempt has failed, for checks that are
    /// costly to run.
    pub check_cooldown: Option<Duration>,
}

/// The settings that `SituwaitionOpts::default` gives.
pub open spec fn default_opts() -> SituwaitionOpts {
    SituwaitionOpts {
        timeout: Duration::spec_from_millis(DEFAULT_SITUWAITION_TIMEOUT_MS as nat),
        check_interval: Duration::spec_from_millis(DEFAULT_SITUWAITION_CHECK_INTERVAL_MS as nat),
        check_cooldown: None,
    }
}

/// What `InvalidTimeout` says of a timeout of `millis` whole milliseconds.
pub open spec fn short_timeout_text(millis: nat) -> Seq<char> {
    "supplied timeout ("@ + decimal(millis) + "ms) is shorter the default timeout ("@ + decimal(
        DEFAULT_SITUWAITION_CHECK_INTERVAL_MS as nat,
    ) + "ms)"@
}

/// What `InvalidInterval` says of an interval of `millis` whole milliseconds.
pub open spec fn long_interval_text(millis: nat) -> Seq<char> {
    "supplied check interval ("@ + decimal(millis) + "ms) is larger than the default timeout ("@
        + decimal(DEFAULT_SITUWAITION_TIMEOUT_MS as nat) + "ms)"@
}

impl Default for SituwaitionOpts {
    fn default() -> (opts: SituwaitionOpts)
        ensures
            opts == default_opts(),
            opts.well_formed(),
    {
        SituwaitionOpts {
            timeout: Duration::from_millis(DEFAULT_SITUWAITION_TIMEOUT_MS),
            check_interval: Duration::from_millis(DEFAULT_SITUWAITION_CHECK_INTERVAL_MS),
            check_cooldown: None,
        }
    }
}

impl SituwaitionOpts {
    /// Settings that can end a wait: the overall timeout is not zero.
    pub open spec fn well_formed(self) -> bool {
        self.timeout@ > 0
    }

    /// The length of the cooldown in nanoseconds: zero where none is set.
    pub open spec fn cooldown_nanos(self) -> nat {
        match self.check_cooldown {
            Some(cooldown) => cooldown@,
            None => 0,
        }
    }

    /// The default settings with the overall timeout replaced, unless the
    /// timeout is shorter than the default pause between checks: such a wait
    /// could not get through one round of checking and pausing.
    pub fn for_timeout(timeout: Duration) -> (made: Result<SituwaitionOpts, WaiterCreationError>)
        ensures
            timeout@ >= default_opts().check_interval@ ==> made == Ok::<
                SituwaitionOpts,
                WaiterCreationError,
            >(SituwaitionOpts { timeout, ..default_opts() }),
            timeout@ < default_opts().check_interval@ ==> (made matches Err(
                WaiterCreationError::InvalidTimeout(text),
            ) && text@ == short_timeout_text(timeout@ / (NANOS_PER_MILLI as nat))),
            made matches Ok(opts) ==> opts.well_formed(),
    {
        let floor = Duration::from_millis(DEFAULT_SITUWAITION_CHECK_INTERVAL_MS);
        if floor.exceeds(&timeout) {
            let mut text = String::from_str("supplied timeout (");
            text.append(decimal_string(timeout.as_millis()).as_str());
            text.append("ms) is shorter the default timeout (");
            text.append(decimal_string(DEFAULT_SITUWAITION_CHECK_INTERVAL_MS as u128).as_str());
            text.append("ms)");
            return Err(WaiterCreationError::InvalidTimeout(text));
        }
        Ok(
            SituwaitionOpts {
                timeout,
                check_interval: Duration::from_millis(DEFAULT_SITUWAITION_CHECK_INTERVAL_MS),
                check_cooldown: None,
            },
        )
    }

    /// The default settings with the pause between checks replaced, unless the
    /// pause is longer than the default overall timeout.
    pub fn for_check_interval(check_interval: Duration) -> (made: Result<
        SituwaitionOpts,
        WaiterCreationError,
    >)
        ensures
            check_interval@ <= default_opts().timeout@ ==> made == Ok::<
                SituwaitionOpts,
                WaiterCreationError,
            >(SituwaitionOpts { check_interval, ..default_opts() }),
            check_interval@ > default_opts().timeout@ ==> (made matches Err(
                WaiterCreationError::InvalidInterval(text),
            ) && text@ == long_interval_text(check_interval@ / (NANOS_PER_MILLI as nat))),
            made matches Ok(opts) ==> opts.well_formed(),
    {
        let ceiling = Duration::from_millis(DEFAULT_SITUWAITION_TIMEOUT_MS);
        if check_interval.exceeds(&ceiling) {
            let mut text = String::from_str("supplied check interval (");
            text.append(decimal_string(check_interval.as_millis()).as_str());
            text.append("ms) is larger than the default timeout (");
            text.append(decimal_string(DEFAULT_SITUWAITION_TIMEOUT_MS as u128).as_str());
            text.append("ms)");
            return Err(WaiterCreationError::InvalidInterval(text));
        }
        Ok(
            SituwaitionOpts {
                timeout: Duration::from_millis(DEFAULT_SITUWAITION_TIMEOUT_MS),
                check_interval,
                check_cooldown: None,
            },
        )
    }
}

} // verus!

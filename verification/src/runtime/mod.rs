//! The cooperative strategies. One task runs the check, weighs what came of
//! it and pauses, in turn; nothing else touches the wait while it runs.

use std::future::Future;

use vstd::prelude::*;

use crate::base::SituwaitionBase;
use crate::error::{SituwaitionError, WaiterCreationError};
use crate::opts::{default_opts, long_interval_text, short_timeout_text, SituwaitionOpts};
use crate::time::{Duration, NANOS_PER_MILLI};

pub mod bounded;
pub mod unbounded;

verus! {

/// A waiter for a check that is awaited. The factory makes a fresh pending
/// check for each attempt.
#[verifier::reject_recursive_types(F)]
#[verifier::reject_recursive_types(R)]
#[verifier::reject_recursive_types(E)]
pub struct AsyncWaiter<F, A, R, E> where
    F: Future<Output = Result<R, E>> + Send,
    A: Fn() -> F + Send,
    R: Send + Sync,
    E: Send + Sync,
 {
    /// The settings of the wait.
    pub opts: SituwaitionOpts,
    /// Makes the pending check of one attempt.
    pub factory: A,
}

/// What the task does once an attempt has been weighed.
#[derive(Debug)]
pub enum Step<R, E> {
    /// Hand this outcome to the caller. No further attempt is made.
    Finish(Result<R, SituwaitionError<E>>),
    /// Pause for this long, then make the next attempt.
    Pause(Duration),
}

impl<F, A, R, E> SituwaitionBase for AsyncWaiter<F, A, R, E> where
    F: Future<Output = Result<R, E>> + Send,
    A: Fn() -> F + Send,
    R: Send + Sync,
    E: Send + Sync,
 {
    type Result = R;

    type Error = E;

    open spec fn policy(&self) -> SituwaitionOpts {
        self.opts
    }

    fn options(&self) -> (opts: &SituwaitionOpts) {
        &self.opts
    }

    fn set_options<U: Fn(&SituwaitionOpts) -> SituwaitionOpts>(&mut self, update_fn: U) -> (done:
        Result<(), SituwaitionError<()>>)
        ensures
            final(self).factory == old(self).factory,
    {
        self.opts = update_fn(&self.opts);
        Ok(())
    }
}

impl<F, A, R, E> AsyncWaiter<F, A, R, E> where
    F: Future<Output = Result<R, E>> + Send,
    A: Fn() -> F + Send,
    R: Send + Sync,
    E: Send + Sync,
 {
    /// A waiter for the checks that `factory` makes, with the default
    /// settings.
    pub fn from_factory(factory: A) -> (waiter: AsyncWaiter<F, A, R, E>)
        ensures
            waiter.opts == default_opts(),
            waiter.factory == factory,
    {
        AsyncWaiter { opts: SituwaitionOpts::default(), factory }
    }

    /// A waiter for the checks that `factory` makes, with the settings given.
    pub fn with_opts(factory: A, opts: SituwaitionOpts) -> (waiter: AsyncWaiter<F, A, R, E>)
        ensures
            waiter.opts == opts,
            waiter.factory == factory,
    {
        AsyncWaiter { opts, factory }
    }

    /// A waiter with the default settings but for the overall timeout. A
    /// timeout below the default check interval is refused.
    pub fn with_timeout(factory: A, timeout: Duration) -> (made: Result<
        AsyncWaiter<F, A, R, E>,
        WaiterCreationError,
    >)
        ensures
            timeout@ >= default_opts().check_interval@ ==> (made matches Ok(waiter) && waiter.opts
                == SituwaitionOpts { timeout, ..default_opts() } && waiter.factory == factory),
            timeout@ < default_opts().check_interval@ ==> (made matches Err(
                WaiterCreationError::InvalidTimeout(text),
            ) && text@ == short_timeout_text(timeout@ / (NANOS_PER_MILLI as nat))),
    {
        match SituwaitionOpts::for_timeout(timeout) {
            Ok(opts) => Ok(Self::with_opts(factory, opts)),
            Err(refusal) => Err(refusal),
        }
    }

    /// A waiter with the default settings but for the check interval. An
    /// interval above the default overall timeout is refused.
    pub fn with_check_interval(factory: A, check_interval: Duration) -> (made: Result<
        AsyncWaiter<F, A, R, E>,
        WaiterCreationError,
    >)
        ensures
            check_interval@ <= default_opts().timeout@ ==> (made matches Ok(waiter) && waiter.opts
                == SituwaitionOpts { check_interval, ..default_opts() } && waiter.factory
                == factory),
            check_interval@ > default_opts().timeout@ ==> (made matches Err(
                WaiterCreationError::InvalidInterval(text),
            ) && text@ == long_interval_text(check_interval@ / (NANOS_PER_MILLI as nat))),
    {
        match SituwaitionOpts::for_check_interval(check_interval) {
            Ok(opts) => Ok(Self::with_opts(factory, opts)),
            Err(refusal) => Err(refusal),
        }
    }
}

} // verus!

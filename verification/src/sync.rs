//! The threaded strategy. One thread runs the check again and again and
//! leaves what it found in one of two slots; the thread that waits looks at
//! the slots at a steady pace, so that it can give up on a check that hangs.

use vstd::prelude::*;
use vstd::string::*;

use crate::base::SituwaitionBase;
use crate::error::{SituwaitionError, WaiterCreationError};
use crate::opts::{default_opts, long_interval_text, short_timeout_text, SituwaitionOpts};
use crate::time::{Duration, NANOS_PER_MILLI};
use crate::timeline::{evenly_paced as attempts_evenly_paced, failed_in_time, never_passes, Attempt, Ending};

verus! {

/// A waiter for a check that blocks the thread it runs on.
#[verifier::reject_recursive_types(R)]
#[verifier::reject_recursive_types(E)]
pub struct SyncWaiter<R, E, F> where
    R: Send,
    E: Send + 'static,
    F: Fn() -> Result<R, E> + Send + Sync + 'static,
 {
    /// The settings of the wait.
    opts: SituwaitionOpts,
    /// The check, until a run takes it.
    check_fn: Option<F>,
}

/// What the thread that runs the check does after an attempt.
#[derive(Debug)]
pub enum AttemptStep<R, E> {
    /// Put the value in the result slot and stop.
    Publish(R),
    /// Put the error in the error slot and stop.
    Abandon(SituwaitionError<E>),
    /// Pause for the cooldown, if there is one, then run the check again.
    Retry(Option<Duration>),
}

/// What the thread that waits does after a look at the two slots.
#[derive(Debug)]
pub enum PollStep<R, E> {
    /// Hand this outcome to the caller.
    Return(Result<R, SituwaitionError<E>>),
    /// Sleep for this long, then look again.
    Sleep(Duration),
}

/// The step after an attempt that ended `elapsed` nanoseconds into the wait.
/// A value is published whenever it comes. A failure ends the run only once
/// the overall timeout is spent; until then the check is run again.
pub open spec fn attempt_step<R, E>(
    outcome: Result<R, E>,
    elapsed: nat,
    opts: SituwaitionOpts,
) -> AttemptStep<R, E> {
    match outcome {
        Ok(value) => AttemptStep::Publish(value),
        Err(failure) => if elapsed > opts.timeout@ {
            AttemptStep::Abandon(SituwaitionError::TimeoutError(failure))
        } else {
            AttemptStep::Retry(opts.check_cooldown)
        },
    }
}

/// The step after a look at the slots, `elapsed` nanoseconds into the wait.
/// An error in its slot is returned before anything else. A value in its
/// slot is returned next. With both slots empty the attempt is still
/// running: past the overall timeout that is reported, before it the look is
/// repeated after the check interval.
pub open spec fn poll_step<R, E>(
    result_slot: Option<R>,
    error_slot: Option<SituwaitionError<E>>,
    elapsed: nat,
    opts: SituwaitionOpts,
) -> PollStep<R, E> {
    match error_slot {
        Some(error) => PollStep::Return(Err(error)),
        None => match result_slot {
            Some(value) => PollStep::Return(Ok(value)),
            None => if elapsed > opts.timeout@ {
                PollStep::Return(Err(SituwaitionError::CheckTimeoutError))
            } else {
                PollStep::Sleep(opts.check_interval)
            },
        },
    }
}

/// Decides what follows an attempt whose outcome came `elapsed` after the
/// wait began.
pub fn after_attempt<R, E>(outcome: Result<R, E>, elapsed: Duration, opts: &SituwaitionOpts) -> (step:
    AttemptStep<R, E>)
    ensures
        step == attempt_step(outcome, elapsed@, *opts),
{
    match outcome {
        Ok(value) => AttemptStep::Publish(value),
        Err(failure) => {
            if elapsed.exceeds(&opts.timeout) {
                AttemptStep::Abandon(SituwaitionError::TimeoutError(failure))
            } else {
                AttemptStep::Retry(opts.check_cooldown)
            }
        },
    }
}

/// Looks at the two slots `elapsed` after the wait began, and takes out of
/// them what it returns. The error slot is empty afterwards; the result slot
/// is left alone when an error was returned, and is empty otherwise.
pub fn poll<R, E>(
    result_slot: &mut Option<R>,
    error_slot: &mut Option<SituwaitionError<E>>,
    elapsed: Duration,
    opts: &SituwaitionOpts,
) -> (step: PollStep<R, E>)
    ensures
        step == poll_step(*old(result_slot), *old(error_slot), elapsed@, *opts),
        *final(error_slot) is None,
        *final(result_slot) == (if *old(error_slot) is Some {
            *old(result_slot)
        } else {
            None
        }),
{
    match error_slot.take() {
        Some(error) => PollStep::Return(Err(error)),
        None => match result_slot.take() {
            Some(value) => PollStep::Return(Ok(value)),
            None => {
                if elapsed.exceeds(&opts.timeout) {
                    PollStep::Return(Err(SituwaitionError::CheckTimeoutError))
                } else {
                    PollStep::Sleep(opts.check_interval)
                }
            },
        },
    }
}

/// The step of the thread that waits when it can no longer get at the slots:
/// the wait is over, and nothing is tried again.
pub fn slots_lost<R, E>() -> (step: PollStep<R, E>)
    ensures
        step matches PollStep::Return(Err(SituwaitionError::UnexpectedError(text))) && text@
            == "failed to lock mutex"@,
{
    PollStep::Return(Err(SituwaitionError::UnexpectedError(String::from_str("failed to lock mutex"))))
}

impl<R, E, F> SituwaitionBase for SyncWaiter<R, E, F> where
    R: Send,
    E: Send + 'static,
    F: Fn() -> Result<R, E> + Send + Sync + 'static,
 {
    type Result = R;

    type Error = E;

    closed spec fn policy(&self) -> SituwaitionOpts {
        self.opts
    }

    fn options(&self) -> (opts: &SituwaitionOpts) {
        &self.opts
    }

    fn set_options<U: Fn(&SituwaitionOpts) -> SituwaitionOpts>(&mut self, update_fn: U) -> (done:
        Result<(), SituwaitionError<()>>)
        ensures
            final(self).check() == old(self).check(),
    {
        self.opts = update_fn(&self.opts);
        Ok(())
    }
}

impl<R, E, F> SyncWaiter<R, E, F> where
    R: Send + 'static,
    E: Send + 'static,
    F: Fn() -> Result<R, E> + Send + Sync + 'static,
 {
    /// The check that the waiter holds, if no run has taken it yet.
    pub closed spec fn check(&self) -> Option<F> {
        self.check_fn
    }

    /// A waiter for `check_fn` with the default settings.
    pub fn from_fn(check_fn: F) -> (waiter: Self)
        ensures
            waiter.policy() == default_opts(),
            waiter.check() == Some(check_fn),
    {
        SyncWaiter { opts: SituwaitionOpts::default(), check_fn: Some(check_fn) }
    }

    /// A waiter for `check_fn` with the settings given.
    pub fn with_opts(check_fn: F, opts: SituwaitionOpts) -> (waiter: Self)
        ensures
            waiter.policy() == opts,
            waiter.check() == Some(check_fn),
    {
        SyncWaiter { opts, check_fn: Some(check_fn) }
    }

    /// A waiter with the default settings but for the overall timeout. A
    /// timeout below the default check interval is refused.
    pub fn with_timeout(check_fn: F, timeout: Duration) -> (made: Result<Self, WaiterCreationError>)
        ensures
            timeout@ >= default_opts().check_interval@ ==> (made matches Ok(waiter)
                && waiter.policy() == SituwaitionOpts { timeout, ..default_opts() }
                && waiter.check() == Some(check_fn)),
            timeout@ < default_opts().check_interval@ ==> (made matches Err(
                WaiterCreationError::InvalidTimeout(text),
            ) && text@ == short_timeout_text(timeout@ / (NANOS_PER_MILLI as nat))),
    {
        match SituwaitionOpts::for_timeout(timeout) {
            Ok(opts) => Ok(Self::with_opts(check_fn, opts)),
            Err(refusal) => Err(refusal),
        }
    }

    /// A waiter with the default settings but for the check interval. An
    /// interval above the default overall timeout is refused.
    pub fn with_check_interval(check_fn: F, check_interval: Duration) -> (made: Result<
        Self,
        WaiterCreationError,
    >)
        ensures
            check_interval@ <= default_opts().timeout@ ==> (made matches Ok(waiter)
                && waiter.policy() == SituwaitionOpts { check_interval, ..default_opts() }
                && waiter.check() == Some(check_fn)),
            check_interval@ > default_opts().timeout@ ==> (made matches Err(
                WaiterCreationError::InvalidInterval(text),
            ) && text@ == long_interval_text(check_interval@ / (NANOS_PER_MILLI as nat))),
    {
        match SituwaitionOpts::for_check_interval(check_interval) {
            Ok(opts) => Ok(Self::with_opts(check_fn, opts)),
            Err(refusal) => Err(refusal),
        }
    }

    /// Takes the check out of the waiter, for the thread that will run it.
    /// A waiter gives its check away once: on a waiter that has none left
    /// this is an `UnexpectedError`. The settings stay as they are.
    pub fn take_check(&mut self) -> (taken: Result<F, SituwaitionError<E>>)
        ensures
            old(self).check() matches Some(check_fn) ==> taken == Ok::<F, SituwaitionError<E>>(
                check_fn,
            ),
            old(self).check() is None ==> (taken matches Err(SituwaitionError::UnexpectedError(text))
                && text@ == "no check fn specified"@),
            final(self).check() is None,
            final(self).policy() == old(self).policy(),
    {
        match self.check_fn.take() {
            Some(check_fn) => Ok(check_fn),
            None => Err(SituwaitionError::UnexpectedError(String::from_str("no check fn specified"))),
        }
    }
}

/// What the thread that runs the check leaves in a slot when it stops: a
/// value for the result slot or an error for the error slot, how many
/// nanoseconds into the wait it left it, and how many attempts it had made.
pub struct Deposit<R, E> {
    pub outcome: Result<R, SituwaitionError<E>>,
    pub elapsed: nat,
    pub rounds: nat,
}

/// What the thread that runs the check comes to from attempt `next` on: the
/// deposit of the first attempt that is not followed by another. `None`
/// while every attempt on record was followed by another.
pub open spec fn deposit_from<R, E>(
    attempts: Seq<Attempt<R, E>>,
    opts: SituwaitionOpts,
    next: nat,
) -> Option<Deposit<R, E>>
    decreases attempts.len() - next,
{
    if next >= attempts.len() {
        None
    } else {
        let attempt = attempts[next as int];
        match attempt_step(attempt.outcome, attempt.elapsed, opts) {
            AttemptStep::Publish(value) => Some(
                Deposit { outcome: Ok(value), elapsed: attempt.elapsed, rounds: next + 1 },
            ),
            AttemptStep::Abandon(error) => Some(
                Deposit { outcome: Err(error), elapsed: attempt.elapsed, rounds: next + 1 },
            ),
            AttemptStep::Retry(_) => deposit_from(attempts, opts, next + 1),
        }
    }
}

/// What the thread that runs the check leaves behind when its attempts went
/// as `attempts` records.
pub open spec fn deposit<R, E>(attempts: Seq<Attempt<R, E>>, opts: SituwaitionOpts) -> Option<
    Deposit<R, E>,
> {
    deposit_from(attempts, opts, 0)
}

/// Whether what was left behind is there to be seen `now` nanoseconds into
/// the wait.
pub open spec fn landed<R, E>(left: Option<Deposit<R, E>>, now: nat) -> bool {
    left matches Some(deposit) && deposit.elapsed <= now
}

/// The result slot as a look finds it `now` nanoseconds into the wait.
pub open spec fn result_slot_at<R, E>(left: Option<Deposit<R, E>>, now: nat) -> Option<R> {
    if landed(left, now) && left->Some_0.outcome is Ok {
        Some(left->Some_0.outcome->Ok_0)
    } else {
        None
    }
}

/// The error slot as a look finds it `now` nanoseconds into the wait.
pub open spec fn error_slot_at<R, E>(left: Option<Deposit<R, E>>, now: nat) -> Option<
    SituwaitionError<E>,
> {
    if landed(left, now) && left->Some_0.outcome is Err {
        Some(left->Some_0.outcome->Err_0)
    } else {
        None
    }
}

/// What the thread that waits comes to from look `next` on, when it looks
/// at the slots at the times `looks`: the outcome of the first look that is
/// not followed by a sleep, with the number of looks made up to it.
pub open spec fn watch_from<R, E>(
    left: Option<Deposit<R, E>>,
    looks: Seq<nat>,
    opts: SituwaitionOpts,
    next: nat,
) -> Option<Ending<R, E>>
    decreases looks.len() - next,
{
    if next >= looks.len() {
        None
    } else {
        let now = looks[next as int];
        match poll_step(result_slot_at(left, now), error_slot_at(left, now), now, opts) {
            PollStep::Return(outcome) => Some(Ending { outcome, rounds: next + 1 }),
            PollStep::Sleep(_) => watch_from(left, looks, opts, next + 1),
        }
    }
}

/// What a wait comes to when the attempts of the one thread went as
/// `attempts` records and the other thread looked at the slots at the times
/// `looks`. The rounds of the ending count the looks.
pub open spec fn run<R, E>(
    attempts: Seq<Attempt<R, E>>,
    looks: Seq<nat>,
    opts: SituwaitionOpts,
) -> Option<Ending<R, E>> {
    watch_from(deposit(attempts, opts), looks, opts, 0)
}

/// The looks keep the pace of the check interval: look `i` is made `i` check
/// intervals into the wait.
pub open spec fn evenly_paced(looks: Seq<nat>, opts: SituwaitionOpts) -> bool {
    forall|i: int| 0 <= i < looks.len() ==> #[trigger] looks[i] == i * opts.check_interval@
}

proof fn lemma_deposit_reaches<R, E>(
    attempts: Seq<Attempt<R, E>>,
    opts: SituwaitionOpts,
    next: nat,
    last: nat,
)
    requires
        next <= last < attempts.len(),
        failed_in_time(attempts, last as int, opts),
    ensures
        deposit_from(attempts, opts, next) == deposit_from(attempts, opts, last),
    decreases last - next,
{
    if next < last {
        assert(attempts[next as int].outcome is Err);
        lemma_deposit_reaches(attempts, opts, next + 1, last);
    }
}

proof fn lemma_deposit_of_failures<R, E>(
    attempts: Seq<Attempt<R, E>>,
    opts: SituwaitionOpts,
    next: nat,
)
    requires
        never_passes(attempts),
    ensures
        deposit_from(attempts, opts, next) matches Some(left) ==> {
            &&& next < left.rounds <= attempts.len()
            &&& left.outcome == Err::<R, SituwaitionError<E>>(
                SituwaitionError::TimeoutError(attempts[left.rounds - 1].outcome->Err_0),
            )
            &&& left.elapsed == attempts[left.rounds - 1].elapsed
            &&& left.elapsed > opts.timeout@
        },
    decreases attempts.len() - next,
{
    if next < attempts.len() {
        assert(attempts[next as int].outcome is Err);
        lemma_deposit_of_failures(attempts, opts, next + 1);
    }
}

proof fn lemma_watch_sleeps_until<R, E>(
    left: Option<Deposit<R, E>>,
    looks: Seq<nat>,
    opts: SituwaitionOpts,
    next: nat,
    seen: nat,
)
    requires
        next <= seen < looks.len(),
        forall|i: int| 0 <= i < seen ==> !landed(left, #[trigger] looks[i]) && looks[i] <= opts.timeout@,
    ensures
        watch_from(left, looks, opts, next) == watch_from(left, looks, opts, seen),
    decreases seen - next,
{
    if next < seen {
        assert(!landed(left, looks[next as int]));
        lemma_watch_sleeps_until(left, looks, opts, next + 1, seen);
    }
}

proof fn lemma_watch_of_failures<R, E>(
    left: Option<Deposit<R, E>>,
    looks: Seq<nat>,
    opts: SituwaitionOpts,
    next: nat,
)
    requires
        left matches Some(deposit) ==> deposit.outcome is Err && deposit.elapsed > opts.timeout@,
    ensures
        watch_from(left, looks, opts, next) matches Some(ending) ==> {
            &&& next < ending.rounds <= looks.len()
            &&& looks[ending.rounds - 1] > opts.timeout@
            &&& ending.outcome == (if landed(left, looks[ending.rounds - 1]) {
                left->Some_0.outcome
            } else {
                Err::<R, SituwaitionError<E>>(SituwaitionError::CheckTimeoutError)
            })
        },
    decreases looks.len() - next,
{
    if next < looks.len() {
        lemma_watch_of_failures(left, looks, opts, next + 1);
    }
}

/// A check that passes in time ends the wait with its value. If the attempt
/// at `last` passed with `value` before the overall timeout was spent, and
/// every attempt before it failed in time, then the first look made after
/// the value was left, the look at `seen`, returns `value`.
pub proof fn lemma_passing_attempt_is_returned<R, E>(
    attempts: Seq<Attempt<R, E>>,
    looks: Seq<nat>,
    opts: SituwaitionOpts,
    last: nat,
    seen: nat,
    value: R,
)
    requires
        last < attempts.len(),
        attempts[last as int].outcome == Ok::<R, E>(value),
        attempts[last as int].elapsed <= opts.timeout@,
        failed_in_time(attempts, last as int, opts),
        seen < looks.len(),
        looks[seen as int] >= attempts[last as int].elapsed,
        forall|i: int| 0 <= i < seen ==> #[trigger] looks[i] < attempts[last as int].elapsed,
    ensures
        run(attempts, looks, opts) == Some(
            Ending { outcome: Ok::<R, SituwaitionError<E>>(value), rounds: seen + 1 },
        ),
{
    lemma_deposit_reaches(attempts, opts, 0, last);
    let left = deposit(attempts, opts);
    assert(left == Some(
        Deposit {
            outcome: Ok::<R, SituwaitionError<E>>(value),
            elapsed: attempts[last as int].elapsed,
            rounds: last + 1,
        },
    ));
    assert forall|i: int| 0 <= i < seen implies !landed(left, #[trigger] looks[i]) && looks[i]
        <= opts.timeout@ by {}
    lemma_watch_sleeps_until(left, looks, opts, 0, seen);
}

proof fn lemma_first_look_from(looks: Seq<nat>, then: nat, late: nat) -> (seen: nat)
    requires
        late < looks.len(),
        looks[late as int] >= then,
    ensures
        seen <= late,
        looks[seen as int] >= then,
        forall|i: int| 0 <= i < seen ==> #[trigger] looks[i] < then,
    decreases late,
{
    if exists|i: int| 0 <= i < late && looks[i] >= then {
        let earlier = choose|i: int| 0 <= i < late && looks[i] >= then;
        lemma_first_look_from(looks, then, earlier as nat)
    } else {
        late
    }
}

/// A check that passes on attempt `count`, on a driver whose attempts take no
/// time and whose cooldowns last what the settings say, is returned as soon
/// as a look is made after it, provided that the cooldowns before it fit in
/// the overall timeout. Without a cooldown they always do, and the first
/// look returns the value. The look at `late` is any that comes after the
/// value; the one that returns it comes no later.
pub proof fn lemma_passing_on_pace_is_returned<R, E>(
    attempts: Seq<Attempt<R, E>>,
    looks: Seq<nat>,
    opts: SituwaitionOpts,
    count: nat,
    late: nat,
    value: R,
)
    requires
        1 <= count <= attempts.len(),
        attempts[count - 1].outcome == Ok::<R, E>(value),
        forall|i: int| 0 <= i < count - 1 ==> (#[trigger] attempts[i]).outcome is Err,
        attempts_evenly_paced(attempts, opts.cooldown_nanos()),
        (count - 1) * opts.cooldown_nanos() <= opts.timeout@,
        late < looks.len(),
        looks[late as int] >= (count - 1) * opts.cooldown_nanos(),
    ensures
        run(attempts, looks, opts) matches Some(ending) && ending.outcome == Ok::<
            R,
            SituwaitionError<E>,
        >(value) && ending.rounds <= late + 1,
        opts.check_cooldown is None ==> run(attempts, looks, opts) == Some(
            Ending { outcome: Ok::<R, SituwaitionError<E>>(value), rounds: 1 },
        ),
{
    let pace = opts.cooldown_nanos();
    let then = attempts[count - 1].elapsed;
    assert forall|i: int| 0 <= i < count - 1 implies (#[trigger] attempts[i]).outcome is Err
        && attempts[i].elapsed <= opts.timeout@ by {
        assert(i * pace <= (count - 1) * pace) by (nonlinear_arith)
            requires
                0 <= i < count,
                0 <= pace,
        ;
    }
    let seen = lemma_first_look_from(looks, then, late);
    lemma_passing_attempt_is_returned(attempts, looks, opts, (count - 1) as nat, seen, value);
    if opts.check_cooldown is None {
        assert((count - 1) * pace == 0) by (nonlinear_arith)
            requires
                pace == 0,
        ;
        assert(looks[0] >= then);
        assert(seen == 0);
    }
}

/// A check that never passes cannot end the wait before the overall timeout
/// is spent, nor with a value. Where the wait ended, its last look was made
/// after the timeout. If the checking thread had given up by then, the wait
/// returned `TimeoutError` around the failure of the last attempt, which was
/// weighed after the timeout; if that thread was still at work, the wait
/// returned `CheckTimeoutError`.
pub proof fn lemma_failing_check_ends_after_timeout<R, E>(
    attempts: Seq<Attempt<R, E>>,
    looks: Seq<nat>,
    opts: SituwaitionOpts,
)
    requires
        never_passes(attempts),
    ensures
        run(attempts, looks, opts) matches Some(ending) ==> {
            let left = deposit(attempts, opts);
            let now = looks[ending.rounds - 1];
            &&& 1 <= ending.rounds <= looks.len()
            &&& now > opts.timeout@
            &&& landed(left, now) ==> {
                &&& 1 <= left->Some_0.rounds <= attempts.len()
                &&& ending.outcome == Err::<R, SituwaitionError<E>>(
                    SituwaitionError::TimeoutError(
                        attempts[left->Some_0.rounds - 1].outcome->Err_0,
                    ),
                )
                &&& attempts[left->Some_0.rounds - 1].elapsed > opts.timeout@
            }
            &&& !landed(left, now) ==> ending.outcome == Err::<R, SituwaitionError<E>>(
                SituwaitionError::CheckTimeoutError,
            )
        },
{
    lemma_deposit_of_failures(attempts, opts, 0);
    lemma_watch_of_failures(deposit(attempts, opts), looks, opts, 0);
}

/// A check that never passes ends the wait with `TimeoutError` around its
/// last failure, provided that the checking thread has given up by the first
/// look that is made after the overall timeout. Here the attempt at `last`
/// is the first that was weighed after the timeout, and the look at `seen` is
/// the first made after the timeout; it comes no earlier than that attempt.
pub proof fn lemma_failing_check_times_out<R, E>(
    attempts: Seq<Attempt<R, E>>,
    looks: Seq<nat>,
    opts: SituwaitionOpts,
    last: nat,
    seen: nat,
)
    requires
        last < attempts.len(),
        attempts[last as int].outcome is Err,
        attempts[last as int].elapsed > opts.timeout@,
        failed_in_time(attempts, last as int, opts),
        seen < looks.len(),
        looks[seen as int] >= attempts[last as int].elapsed,
        forall|i: int| 0 <= i < seen ==> #[trigger] looks[i] <= opts.timeout@,
    ensures
        run(attempts, looks, opts) == Some(
            Ending {
                outcome: Err::<R, SituwaitionError<E>>(
                    SituwaitionError::TimeoutError(attempts[last as int].outcome->Err_0),
                ),
                rounds: seen + 1,
            },
        ),
        looks[seen as int] > opts.timeout@,
{
    lemma_deposit_reaches(attempts, opts, 0, last);
    let left = deposit(attempts, opts);
    assert forall|i: int| 0 <= i < seen implies !landed(left, #[trigger] looks[i]) && looks[i]
        <= opts.timeout@ by {}
    lemma_watch_sleeps_until(left, looks, opts, 0, seen);
}

/// A check that hangs is given up on. If the look at `seen` is the first
/// made after the overall timeout, and nothing had been left in a slot by
/// then, the wait returns `CheckTimeoutError` at that look, whatever the
/// checking thread comes to later.
pub proof fn lemma_hanging_check_is_given_up<R, E>(
    attempts: Seq<Attempt<R, E>>,
    looks: Seq<nat>,
    opts: SituwaitionOpts,
    seen: nat,
)
    requires
        seen < looks.len(),
        looks[seen as int] > opts.timeout@,
        forall|i: int| 0 <= i < seen ==> #[trigger] looks[i] <= opts.timeout@,
        forall|i: int| 0 <= i <= seen ==> !landed(deposit(attempts, opts), #[trigger] looks[i]),
    ensures
        run(attempts, looks, opts) == Some(
            Ending {
                outcome: Err::<R, SituwaitionError<E>>(SituwaitionError::CheckTimeoutError),
                rounds: seen + 1,
            },
        ),
{
    let left = deposit(attempts, opts);
    assert(!landed(left, looks[seen as int]));
    lemma_watch_sleeps_until(left, looks, opts, 0, seen);
}

/// A check that hangs is given up within one check interval of the overall
/// timeout. When the looks keep the pace of a check interval that is not
/// zero, and nothing has been left in a slot by the first look after the
/// timeout, the look at `seen`, then the wait returns `CheckTimeoutError` at
/// that look, which is made no later than one check interval after the
/// timeout, and strictly earlier unless the timeout is a whole number of
/// check intervals.
pub proof fn lemma_hanging_check_is_given_up_soon<R, E>(
    attempts: Seq<Attempt<R, E>>,
    looks: Seq<nat>,
    opts: SituwaitionOpts,
    seen: nat,
)
    requires
        opts.check_interval@ > 0,
        evenly_paced(looks, opts),
        seen < looks.len(),
        looks[seen as int] > opts.timeout@,
        forall|i: int| 0 <= i < seen ==> #[trigger] looks[i] <= opts.timeout@,
        forall|i: int| 0 <= i <= seen ==> !landed(deposit(attempts, opts), #[trigger] looks[i]),
    ensures
        run(attempts, looks, opts) == Some(
            Ending {
                outcome: Err::<R, SituwaitionError<E>>(SituwaitionError::CheckTimeoutError),
                rounds: seen + 1,
            },
        ),
        looks[seen as int] <= opts.timeout@ + opts.check_interval@,
        opts.timeout@ % opts.check_interval@ != 0 ==> looks[seen as int] < opts.timeout@
            + opts.check_interval@,
{
    lemma_hanging_check_is_given_up(attempts, looks, opts, seen);
    let pace = opts.check_interval@ as int;
    let limit = opts.timeout@ as int;
    assert(looks[seen as int] == seen * pace);
    if seen > 0 {
        let before = seen - 1;
        assert(looks[before] == before * pace);
        assert(seen * pace == before * pace + pace) by (nonlinear_arith)
            requires
                before == seen - 1,
        ;
        if before * pace == limit {
            vstd::arithmetic::div_mod::lemma_mod_multiples_basic(before, pace);
        }
    } else {
        assert(seen * pace == 0) by (nonlinear_arith)
            requires
                seen == 0,
        ;
    }
}

/// The cooldown stands between a failed attempt and the next one, and so
/// before the next weighing, whatever the check interval is: a failure in
/// time is answered by the cooldown of the settings, and by the same step
/// under any other check interval.
pub proof fn lemma_cooldown_precedes_next_attempt<R, E>(
    failure: E,
    elapsed: nat,
    opts: SituwaitionOpts,
    other_interval: Duration,
)
    requires
        elapsed <= opts.timeout@,
    ensures
        attempt_step(Err::<R, E>(failure), elapsed, opts) == AttemptStep::<R, E>::Retry(
            opts.check_cooldown,
        ),
        attempt_step(
            Err::<R, E>(failure),
            elapsed,
            SituwaitionOpts { check_interval: other_interval, ..opts },
        ) == attempt_step(Err::<R, E>(failure), elapsed, opts),
{
}

} // verus!

//! The strategy that lets every attempt run to its end. Only the time spent
//! in all is held against the overall timeout, each time an attempt fails.

use vstd::prelude::*;

use crate::error::SituwaitionError;
use crate::opts::SituwaitionOpts;
use crate::runtime::Step;
use crate::time::Duration;
use crate::timeline::{evenly_paced, failed_in_time, never_passes, Attempt, Ending};

verus! {

/// The step after an attempt whose outcome came `elapsed` nanoseconds into
/// the wait. A value ends the wait whenever it comes. A failure ends it once
/// the overall timeout is spent; until then the task pauses for the check
/// interval and tries again.
pub open spec fn attempt_step<R, E>(outcome: Result<R, E>, elapsed: nat, opts: SituwaitionOpts) -> Step<
    R,
    E,
> {
    match outcome {
        Ok(value) => Step::Finish(Ok(value)),
        Err(failure) => if elapsed > opts.timeout@ {
            Step::Finish(Err(SituwaitionError::TimeoutError(failure)))
        } else {
            Step::Pause(opts.check_interval)
        },
    }
}

/// Decides what follows an attempt whose outcome came `elapsed` after the
/// wait began.
pub fn after_attempt<R, E>(outcome: Result<R, E>, elapsed: Duration, opts: &SituwaitionOpts) -> (step:
    Step<R, E>)
    ensures
        step == attempt_step(outcome, elapsed@, *opts),
{
    match outcome {
        Ok(value) => Step::Finish(Ok(value)),
        Err(failure) => {
            if elapsed.exceeds(&opts.timeout) {
                Step::Finish(Err(SituwaitionError::TimeoutError(failure)))
            } else {
                Step::Pause(opts.check_interval)
            }
        },
    }
}

/// What a wait comes to from attempt `next` on: the outcome of the first
/// attempt that is not followed by a pause, with the number of attempts made
/// up to it. `None` while every attempt on record was followed by a pause.
pub open spec fn run_from<R, E>(
    attempts: Seq<Attempt<R, E>>,
    opts: SituwaitionOpts,
    next: nat,
) -> Option<Ending<R, E>>
    decreases attempts.len() - next,
{
    if next >= attempts.len() {
        None
    } else {
        match attempt_step(attempts[next as int].outcome, attempts[next as int].elapsed, opts) {
            Step::Finish(outcome) => Some(Ending { outcome, rounds: next + 1 }),
            Step::Pause(_) => run_from(attempts, opts, next + 1),
        }
    }
}

/// What a wait comes to whose attempts went as `attempts` records.
pub open spec fn run<R, E>(attempts: Seq<Attempt<R, E>>, opts: SituwaitionOpts) -> Option<
    Ending<R, E>,
> {
    run_from(attempts, opts, 0)
}

proof fn lemma_run_reaches<R, E>(
    attempts: Seq<Attempt<R, E>>,
    opts: SituwaitionOpts,
    next: nat,
    last: nat,
)
    requires
        next <= last < attempts.len(),
        failed_in_time(attempts, last as int, opts),
    ensures
        run_from(attempts, opts, next) == run_from(attempts, opts, last),
    decreases last - next,
{
    if next < last {
        assert(attempts[next as int].outcome is Err);
        lemma_run_reaches(attempts, opts, next + 1, last);
    }
}

proof fn lemma_run_of_failures<R, E>(
    attempts: Seq<Attempt<R, E>>,
    opts: SituwaitionOpts,
    next: nat,
)
    requires
        never_passes(attempts),
    ensures
        match run_from(attempts, opts, next) {
            Some(ending) => {
                &&& next < ending.rounds <= attempts.len()
                &&& ending.outcome == Err::<R, SituwaitionError<E>>(
                    SituwaitionError::TimeoutError(attempts[ending.rounds - 1].outcome->Err_0),
                )
                &&& attempts[ending.rounds - 1].elapsed > opts.timeout@
                &&& forall|i: int|
                    next <= i < ending.rounds - 1 ==> (#[trigger] attempts[i]).elapsed
                        <= opts.timeout@
            },
            None => forall|i: int|
                next <= i < attempts.len() ==> (#[trigger] attempts[i]).elapsed <= opts.timeout@,
        },
    decreases attempts.len() - next,
{
    if next < attempts.len() {
        assert(attempts[next as int].outcome is Err);
        lemma_run_of_failures(attempts, opts, next + 1);
    }
}

/// A check that passes in time ends the wait with its value. If the attempt
/// at `last` passed with `value`, and every attempt before it failed and was
/// weighed before the overall timeout was spent, the wait returns `value`
/// after `last + 1` attempts, whenever the passing attempt itself came.
pub proof fn lemma_passing_attempt_is_returned<R, E>(
    attempts: Seq<Attempt<R, E>>,
    opts: SituwaitionOpts,
    last: nat,
    value: R,
)
    requires
        last < attempts.len(),
        attempts[last as int].outcome == Ok::<R, E>(value),
        failed_in_time(attempts, last as int, opts),
    ensures
        run(attempts, opts) == Some(
            Ending { outcome: Ok::<R, SituwaitionError<E>>(value), rounds: last + 1 },
        ),
{
    lemma_run_reaches(attempts, opts, 0, last);
}

/// A check that passes on attempt `count`, on a driver whose attempts take no
/// time and whose pauses last the check interval, is returned whenever
/// `count` check intervals are shorter than the overall timeout.
pub proof fn lemma_passing_on_pace_is_returned<R, E>(
    attempts: Seq<Attempt<R, E>>,
    opts: SituwaitionOpts,
    count: nat,
    value: R,
)
    requires
        1 <= count <= attempts.len(),
        attempts[count - 1].outcome == Ok::<R, E>(value),
        forall|i: int| 0 <= i < count - 1 ==> (#[trigger] attempts[i]).outcome is Err,
        evenly_paced(attempts, opts.check_interval@),
        count * opts.check_interval@ < opts.timeout@,
    ensures
        run(attempts, opts) == Some(
            Ending { outcome: Ok::<R, SituwaitionError<E>>(value), rounds: count },
        ),
{
    let pace = opts.check_interval@;
    assert forall|i: int| 0 <= i < count - 1 implies (#[trigger] attempts[i]).outcome is Err
        && attempts[i].elapsed <= opts.timeout@ by {
        assert(i * pace <= count * pace) by (nonlinear_arith)
            requires
                0 <= i < count,
                0 <= pace,
        ;
    }
    lemma_passing_attempt_is_returned(attempts, opts, (count - 1) as nat, value);
}

/// A check that never passes ends the wait in no other way than by the
/// overall timeout. While every attempt on record was weighed in time the
/// wait goes on. Otherwise it ends at the first attempt weighed after the
/// timeout was spent: with `TimeoutError` around the failure of that attempt,
/// the last one made, and with more time gone than the timeout allows.
pub proof fn lemma_failing_check_times_out<R, E>(
    attempts: Seq<Attempt<R, E>>,
    opts: SituwaitionOpts,
)
    requires
        never_passes(attempts),
    ensures
        match run(attempts, opts) {
            Some(ending) => {
                &&& 1 <= ending.rounds <= attempts.len()
                &&& ending.outcome == Err::<R, SituwaitionError<E>>(
                    SituwaitionError::TimeoutError(attempts[ending.rounds - 1].outcome->Err_0),
                )
                &&& attempts[ending.rounds - 1].elapsed > opts.timeout@
                &&& failed_in_time(attempts, ending.rounds - 1, opts)
            },
            None => failed_in_time(attempts, attempts.len() as int, opts),
        },
{
    lemma_run_of_failures(attempts, opts, 0);
}

} // verus!

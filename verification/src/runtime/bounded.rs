//! The strategy that gives each attempt a cap. The pending check is raced
//! against a timer; when the timer wins, the check is dropped and the wait is
//! over.

use vstd::prelude::*;

use crate::error::SituwaitionError;
use crate::opts::SituwaitionOpts;
use crate::runtime::Step;
use crate::time::Duration;
use crate::timeline::Ending;

verus! {

/// What the task does once the race of an attempt is decided.
#[derive(Debug)]
pub enum RaceStep<R, E> {
    /// Hand this outcome to the caller. No further attempt is made.
    Finish(Result<R, SituwaitionError<E>>),
    /// The check failed in time. Pause for the cooldown, if there is one,
    /// then hold the failure against the overall timeout.
    Cooldown(E, Option<Duration>),
}

/// The step after a race. `None` stands for the timer winning.
pub open spec fn race_step<R, E>(raced: Option<Result<R, E>>, opts: SituwaitionOpts) -> RaceStep<
    R,
    E,
> {
    match raced {
        None => RaceStep::Finish(Err(SituwaitionError::CheckTimeoutError)),
        Some(Ok(value)) => RaceStep::Finish(Ok(value)),
        Some(Err(failure)) => RaceStep::Cooldown(failure, opts.check_cooldown),
    }
}

/// The step once the cooldown of a failed attempt is over, `elapsed`
/// nanoseconds into the wait. Past the overall timeout the failure ends the
/// wait; before it the task pauses for the check interval and tries again.
pub open spec fn cooldown_step<R, E>(failure: E, elapsed: nat, opts: SituwaitionOpts) -> Step<R, E> {
    if elapsed > opts.timeout@ {
        Step::Finish(Err(SituwaitionError::TimeoutError(failure)))
    } else {
        Step::Pause(opts.check_interval)
    }
}

/// The time that one attempt may take: the overall timeout.
pub open spec fn cap(opts: SituwaitionOpts) -> Duration {
    opts.timeout
}

/// The time that one attempt may take.
pub fn attempt_cap(opts: &SituwaitionOpts) -> (limit: Duration)
    ensures
        limit == cap(*opts),
{
    opts.timeout
}

/// Decides what follows a race. `raced` is what the check came to, or `None`
/// when the timer of `attempt_cap` went off first.
pub fn after_race<R, E>(raced: Option<Result<R, E>>, opts: &SituwaitionOpts) -> (step: RaceStep<R, E>)
    ensures
        step == race_step(raced, *opts),
{
    match raced {
        None => RaceStep::Finish(Err(SituwaitionError::CheckTimeoutError)),
        Some(Ok(value)) => RaceStep::Finish(Ok(value)),
        Some(Err(failure)) => RaceStep::Cooldown(failure, opts.check_cooldown),
    }
}

/// Decides what follows the cooldown of a failed attempt, `elapsed` after the
/// wait began.
pub fn after_cooldown<R, E>(failure: E, elapsed: Duration, opts: &SituwaitionOpts) -> (step: Step<
    R,
    E,
>)
    ensures
        step == cooldown_step::<R, E>(failure, elapsed@, *opts),
{
    if elapsed.exceeds(&opts.timeout) {
        Step::Finish(Err(SituwaitionError::TimeoutError(failure)))
    } else {
        Step::Pause(opts.check_interval)
    }
}

/// One attempt of this strategy: what the race came to (`None` when the timer
/// won), and how many nanoseconds into the wait a failure was held against
/// the overall timeout, which is after its cooldown.
pub struct Race<R, E> {
    pub raced: Option<Result<R, E>>,
    pub elapsed: nat,
}

impl<R, E> Race<R, E> {
    /// The check came to a failure before the timer went off.
    pub open spec fn failed(self) -> bool {
        self.raced matches Some(Err(_))
    }

    /// The failure that the check came to, where it did.
    pub open spec fn failure(self) -> E
        recommends
            self.failed(),
    {
        self.raced->Some_0->Err_0
    }
}

/// Each of the first `count` races ended in a failure of the check that was
/// weighed before the overall timeout was spent.
pub open spec fn failed_in_time<R, E>(races: Seq<Race<R, E>>, count: int, opts: SituwaitionOpts) -> bool {
    forall|i: int|
        0 <= i < count ==> (#[trigger] races[i]).failed() && races[i].elapsed <= opts.timeout@
}

/// Every race ended in a failure of the check: none was won by the timer and
/// none by a value.
pub open spec fn never_passes<R, E>(races: Seq<Race<R, E>>) -> bool {
    forall|i: int| 0 <= i < races.len() ==> (#[trigger] races[i]).failed()
}

/// The attempts take no time, and each cooldown and each pause lasts as long
/// as the settings say: the failure of the attempt after `i` pauses is
/// weighed once `i` check intervals and `i + 1` cooldowns have gone by.
pub open spec fn evenly_paced<R, E>(races: Seq<Race<R, E>>, opts: SituwaitionOpts) -> bool {
    forall|i: int|
        0 <= i < races.len() ==> (#[trigger] races[i]).elapsed == i * (opts.check_interval@
            + opts.cooldown_nanos()) + opts.cooldown_nanos()
}

/// What a wait comes to from attempt `next` on: the outcome of the first
/// attempt that is not followed by a pause for the check interval, with the
/// number of attempts made up to it. `None` while every attempt on record
/// was followed by such a pause.
pub open spec fn run_from<R, E>(races: Seq<Race<R, E>>, opts: SituwaitionOpts, next: nat) -> Option<
    Ending<R, E>,
>
    decreases races.len() - next,
{
    if next >= races.len() {
        None
    } else {
        match race_step(races[next as int].raced, opts) {
            RaceStep::Finish(outcome) => Some(Ending { outcome, rounds: next + 1 }),
            RaceStep::Cooldown(failure, _) => match cooldown_step::<R, E>(
                failure,
                races[next as int].elapsed,
                opts,
            ) {
                Step::Finish(outcome) => Some(Ending { outcome, rounds: next + 1 }),
                Step::Pause(_) => run_from(races, opts, next + 1),
            },
        }
    }
}

/// What a wait comes to whose attempts went as `races` records.
pub open spec fn run<R, E>(races: Seq<Race<R, E>>, opts: SituwaitionOpts) -> Option<Ending<R, E>> {
    run_from(races, opts, 0)
}

proof fn lemma_run_reaches<R, E>(races: Seq<Race<R, E>>, opts: SituwaitionOpts, next: nat, last: nat)
    requires
        next <= last < races.len(),
        failed_in_time(races, last as int, opts),
    ensures
        run_from(races, opts, next) == run_from(races, opts, last),
    decreases last - next,
{
    if next < last {
        assert(races[next as int].failed());
        lemma_run_reaches(races, opts, next + 1, last);
    }
}

proof fn lemma_run_of_failures<R, E>(races: Seq<Race<R, E>>, opts: SituwaitionOpts, next: nat)
    requires
        never_passes(races),
    ensures
        match run_from(races, opts, next) {
            Some(ending) => {
                &&& next < ending.rounds <= races.len()
                &&& races[ending.rounds - 1].failed()
                &&& ending.outcome == Err::<R, SituwaitionError<E>>(
                    SituwaitionError::TimeoutError(races[ending.rounds - 1].failure()),
                )
                &&& races[ending.rounds - 1].elapsed > opts.timeout@
                &&& forall|i: int|
                    next <= i < ending.rounds - 1 ==> (#[trigger] races[i]).elapsed
                        <= opts.timeout@
            },
            None => forall|i: int|
                next <= i < races.len() ==> (#[trigger] races[i]).elapsed <= opts.timeout@,
        },
    decreases races.len() - next,
{
    if next < races.len() {
        assert(races[next as int].failed());
        lemma_run_of_failures(races, opts, next + 1);
    }
}

/// A check that passes in time ends the wait with its value. If the race at
/// `last` was won by `value`, and every race before it ended in a failure
/// that was weighed before the overall timeout was spent, the wait returns
/// `value` after `last + 1` attempts.
pub proof fn lemma_passing_attempt_is_returned<R, E>(
    races: Seq<Race<R, E>>,
    opts: SituwaitionOpts,
    last: nat,
    value: R,
)
    requires
        last < races.len(),
        races[last as int].raced == Some(Ok::<R, E>(value)),
        failed_in_time(races, last as int, opts),
    ensures
        run(races, opts) == Some(
            Ending { outcome: Ok::<R, SituwaitionError<E>>(value), rounds: last + 1 },
        ),
{
    lemma_run_reaches(races, opts, 0, last);
}

/// A check that passes on attempt `count`, on a driver whose attempts take no
/// time and whose pauses last what the settings say, is returned whenever
/// `count` rounds of check interval and cooldown are shorter than the overall
/// timeout. Without a cooldown that is `count` check intervals.
pub proof fn lemma_passing_on_pace_is_returned<R, E>(
    races: Seq<Race<R, E>>,
    opts: SituwaitionOpts,
    count: nat,
    value: R,
)
    requires
        1 <= count <= races.len(),
        races[count - 1].raced == Some(Ok::<R, E>(value)),
        forall|i: int| 0 <= i < count - 1 ==> (#[trigger] races[i]).failed(),
        evenly_paced(races, opts),
        count * (opts.check_interval@ + opts.cooldown_nanos()) < opts.timeout@,
    ensures
        run(races, opts) == Some(
            Ending { outcome: Ok::<R, SituwaitionError<E>>(value), rounds: count },
        ),
{
    let pace = opts.check_interval@ + opts.cooldown_nanos();
    assert forall|i: int| 0 <= i < count - 1 implies (#[trigger] races[i]).failed()
        && races[i].elapsed <= opts.timeout@ by {
        assert((i + 1) * pace <= count * pace) by (nonlinear_arith)
            requires
                0 <= i + 1 <= count,
                0 <= pace,
        ;
        assert((i + 1) * pace == i * pace + pace) by (nonlinear_arith);
    }
    lemma_passing_attempt_is_returned(races, opts, (count - 1) as nat, value);
}

/// A check that fails every time, each time before the timer of its attempt,
/// ends the wait in no other way than by the overall timeout. While every
/// failure on record was weighed in time the wait goes on. Otherwise it ends
/// at the first failure weighed after the timeout was spent: with
/// `TimeoutError` around that failure, the last one, and with more time gone
/// than the timeout allows.
pub proof fn lemma_failing_check_times_out<R, E>(races: Seq<Race<R, E>>, opts: SituwaitionOpts)
    requires
        never_passes(races),
    ensures
        match run(races, opts) {
            Some(ending) => {
                &&& 1 <= ending.rounds <= races.len()
                &&& races[ending.rounds - 1].failed()
                &&& ending.outcome == Err::<R, SituwaitionError<E>>(
                    SituwaitionError::TimeoutError(races[ending.rounds - 1].failure()),
                )
                &&& races[ending.rounds - 1].elapsed > opts.timeout@
                &&& failed_in_time(races, ending.rounds - 1, opts)
            },
            None => failed_in_time(races, races.len() as int, opts),
        },
{
    lemma_run_of_failures(races, opts, 0);
}

/// An attempt that outlasts its cap ends the wait at once. If the race at
/// `last` was won by the timer, and every race before it ended in a failure
/// that was weighed in time, the wait returns `CheckTimeoutError` and makes
/// no attempt after that one.
pub proof fn lemma_overrun_ends_wait<R, E>(races: Seq<Race<R, E>>, opts: SituwaitionOpts, last: nat)
    requires
        last < races.len(),
        races[last as int].raced is None,
        failed_in_time(races, last as int, opts),
    ensures
        run(races, opts) == Some(
            Ending {
                outcome: Err::<R, SituwaitionError<E>>(SituwaitionError::CheckTimeoutError),
                rounds: last + 1,
            },
        ),
{
    lemma_run_reaches(races, opts, 0, last);
}

/// How far into the wait an attempt is dropped that began `started`
/// nanoseconds into it and did not come to an end in time.
pub open spec fn dropped_at(started: nat, opts: SituwaitionOpts) -> nat {
    started + cap(opts)@
}

/// A first attempt that never comes to an end is cut short within one check
/// interval of the overall timeout. It begins with the wait and is dropped
/// when the overall timeout is spent: that is before a further check
/// interval has gone by, unless the check interval is zero.
pub proof fn lemma_first_overrun_is_noticed_soon(opts: SituwaitionOpts)
    requires
        opts.check_interval@ > 0,
    ensures
        dropped_at(0, opts) == opts.timeout@,
        dropped_at(0, opts) < opts.timeout@ + opts.check_interval@,
{
}

/// The cooldown stands between a failure and the weighing of it, whatever
/// the check interval is: a failed attempt is answered by the cooldown of the
/// settings, and by the same step under any other check interval.
pub proof fn lemma_cooldown_precedes_weighing<R, E>(
    failure: E,
    opts: SituwaitionOpts,
    other_interval: Duration,
)
    ensures
        race_step(Some(Err::<R, E>(failure)), opts) == RaceStep::<R, E>::Cooldown(
            failure,
            opts.check_cooldown,
        ),
        race_step(Some(Err::<R, E>(failure)), SituwaitionOpts { check_interval: other_interval, ..opts })
            == race_step(Some(Err::<R, E>(failure)), opts),
{
}

} // verus!

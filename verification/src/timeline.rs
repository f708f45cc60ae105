//! A wait as a driver lives it: what each attempt came to, and how far into
//! the wait it was weighed. The strategies state over such records what a
//! whole wait comes to when the driver does as it is told.

use vstd::prelude::*;

use crate::error::SituwaitionError;
use crate::opts::SituwaitionOpts;

verus! {

/// One attempt: what the check came to, and how many nanoseconds into the
/// wait that was held against the overall timeout.
pub struct Attempt<R, E> {
    pub outcome: Result<R, E>,
    pub elapsed: nat,
}

/// How a wait ended: its outcome, and how many rounds were made in all.
pub struct Ending<R, E> {
    pub outcome: Result<R, SituwaitionError<E>>,
    pub rounds: nat,
}

/// Each of the first `count` attempts failed and was weighed before the
/// overall timeout was spent.
pub open spec fn failed_in_time<R, E>(
    attempts: Seq<Attempt<R, E>>,
    count: int,
    opts: SituwaitionOpts,
) -> bool {
    forall|i: int|
        0 <= i < count ==> (#[trigger] attempts[i]).outcome is Err && attempts[i].elapsed
            <= opts.timeout@
}

/// Every attempt failed.
pub open spec fn never_passes<R, E>(attempts: Seq<Attempt<R, E>>) -> bool {
    forall|i: int| 0 <= i < attempts.len() ==> (#[trigger] attempts[i]).outcome is Err
}

/// The attempts take no time and the pauses between them take `pace`
/// nanoseconds each: the attempt after `i` pauses is weighed at `i * pace`.
pub open spec fn evenly_paced<R, E>(attempts: Seq<Attempt<R, E>>, pace: nat) -> bool {
    forall|i: int| 0 <= i < attempts.len() ==> (#[trigger] attempts[i]).elapsed == i * pace
}

} // verus!

//! What every waiter offers, whatever runs it.

use vstd::prelude::*;

use crate::error::SituwaitionError;
use crate::opts::SituwaitionOpts;

verus! {

/// A waiter: a check together with the settings of the wait.
pub trait SituwaitionBase {
    /// What the check yields when it passes.
    type Result;

    /// What the check yields when it fails.
    type Error;

    /// The settings that the waiter holds.
    spec fn policy(&self) -> SituwaitionOpts;

    /// The settings of the wait.
    fn options(&self) -> (opts: &SituwaitionOpts)
        ensures
            *opts == self.policy(),
    ;

    /// Replaces the settings by what `update_fn` makes of them. It cannot
    /// fail.
    fn set_options<U: Fn(&SituwaitionOpts) -> SituwaitionOpts>(&mut self, update_fn: U) -> (done:
        Result<(), SituwaitionError<()>>)
        requires
            update_fn.requires((&old(self).policy(),)),
        ensures
            done is Ok,
            update_fn.ensures((&old(self).policy(),), final(self).policy()),
    ;
}

} // verus!

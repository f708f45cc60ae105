//! Wait for a situation to come about: the decisions of a polling engine that
//! retries a check until it passes, an attempt overruns, or the overall
//! timeout is spent.
//!
//! The crate holds no clock, thread or timer. A driver measures the time,
//! pauses, and runs the check; after each of these it asks the functions here
//! what to do next, and does it. There is one set of such functions for each
//! strategy:
//!
//! - `sync`: the check runs on a thread of its own and leaves its outcome in
//!   a slot, while the caller's thread looks at the slots at a steady pace;
//! - `runtime::unbounded`: one task awaits each attempt to its end;
//! - `runtime::bounded`: one task races each attempt against a timer.
//!
//! Beside the functions each strategy states what a whole wait comes to when
//! the driver does as it is told, and proves of it what callers rely on.

pub mod base;
pub mod error;
pub mod opts;
pub mod runtime;
pub mod sync;
pub mod text;
pub mod time;
pub mod timeline;

pub use base::SituwaitionBase;
pub use error::{SituwaitionError, WaiterCreationError};
pub use opts::{SituwaitionOpts, DEFAULT_SITUWAITION_CHECK_INTERVAL_MS, DEFAULT_SITUWAITION_TIMEOUT_MS};
pub use time::Duration;

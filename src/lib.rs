//! Scope-bound timers whose measurements are gathered by a shared, thread-safe collector.
//!
//! A [`MyTimer`] is started at the top of a measured region and ended once when the region is
//! left; ending it yields a [`Timing`] with the label it was started with. The record is then
//! delivered to a [`Timer`], the collector, which appends it behind those already collected
//! (so the log keeps arrival order) and can later be drained. A delivering thread holds the
//! collector's lock only to append one record; a caller that cannot afford even that may
//! deliver from a short-lived thread of its own. A poisoned lock never panics a caller: the
//! record comes back to it to be reported and dropped.
use vstd::prelude::*;

pub mod collector;
pub mod guard;
pub mod timing;

pub use collector::{Poisoned, Timer};
pub use guard::MyTimer;
pub use timing::Timing;

verus! {

} // verus!

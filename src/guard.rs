//! The scope guard: it brackets a measured region and yields its record exactly once.
use vstd::prelude::*;
use std::time::Instant;
use crate::timing::Timing;

verus! {

/// A running measurement. Its label sits in a take-once slot, so that ending the
/// measurement moves the label out instead of copying it, and a second ending finds
/// the slot empty and does nothing.
pub struct MyTimer {
    name: Option<String>,
    begin: Instant,
}

impl MyTimer {
    /// The label still waiting to be handed out, or `None` once the guard has ended.
    pub closed spec fn pending(&self) -> Option<Seq<char>> {
        match self.name {
            Some(n) => Some(n@),
            None => None,
        }
    }

    /// The instant at which the measured region began.
    pub closed spec fn started(&self) -> Instant {
        self.begin
    }

    /// What one ending does: a guard whose label is still pending yields a record with
    /// that label and its start, and is left empty; an empty guard yields nothing and
    /// stays as it was.
    pub open spec fn ends_as(self, after: MyTimer, r: Option<Timing>) -> bool {
        match self.pending() {
            Some(n) => {
                &&& r is Some
                &&& r->Some_0.name@ == n
                &&& r->Some_0.begin == self.started()
                &&& after.pending() is None
                &&& after.started() == self.started()
            },
            None => r is None && after == self,
        }
    }

    /// Starts a measurement labelled `name`, reading the clock now.
    pub fn new(name: String) -> (r: MyTimer)
        ensures
            r.pending() == Some(name@),
    {
        MyTimer { name: Some(name), begin: Instant::now() }
    }

    /// Whether the guard has already yielded its record.
    pub fn is_ended(&self) -> (r: bool)
        ensures
            r == (self.pending() is None),
    {
        self.name.is_none()
    }

    /// Ends the measurement: the duration is the time elapsed since the start, and the
    /// label moves into the record. Ending again yields `None`.
    pub fn end(&mut self) -> (r: Option<Timing>)
        ensures
            old(self).ends_as(*final(self), r),
    {
        match self.name.take() {
            Some(name) => {
                let duration = self.begin.elapsed();
                Some(Timing::new(name, self.begin, duration))
            },
            None => None,
        }
    }
}

/// A guard started with a label yields, on its first ending, a record carrying exactly that
/// label; any later ending yields nothing, so each guard delivers exactly one record.
pub proof fn lemma_ends_once(
    name: Seq<char>,
    g: MyTimer,
    once: MyTimer,
    first: Option<Timing>,
    twice: MyTimer,
    second: Option<Timing>,
)
    requires
        g.pending() == Some(name),
        g.ends_as(once, first),
        once.ends_as(twice, second),
    ensures
        first is Some,
        first->Some_0.name@ == name,
        second is None,
        twice == once,
{
}

} // verus!

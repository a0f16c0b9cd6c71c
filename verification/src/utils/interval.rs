//! Interval bookkeeping: at most one active interval at a time. Starting a
//! new interval first cancels the previous one.

use vstd::prelude::*;

verus! {

/// The handle of the currently scheduled interval, if any.
#[derive(Clone, Copy, Debug, PartialEq, Eq, Structural)]
pub struct Interval {
    current_id: Option<i32>,
}

impl Interval {
    /// The handle of the scheduled interval.
    pub closed spec fn scheduled(&self) -> Option<i32> {
        self.current_id
    }

    /// An interval with no scheduled callback.
    pub fn new() -> (t: Self)
        ensures
            t.scheduled() is None,
    {
        Interval { current_id: None }
    }

    /// Returns `true` if an interval is currently active.
    pub fn is_started(&self) -> (r: bool)
        ensures
            r == self.scheduled() is Some,
    {
        self.current_id.is_some()
    }

    /// Cancels the scheduled interval: returns its handle, which the caller
    /// hands to `clearInterval`, and forgets it.
    pub fn clear(&mut self) -> (cancelled: Option<i32>)
        ensures
            cancelled == old(self).scheduled(),
            final(self).scheduled() is None,
    {
        let id = self.current_id;
        self.current_id = None;
        id
    }

    /// Starts tracking a newly scheduled interval. Returns the handle of the
    /// previous interval, which the caller cancels.
    pub fn start(&mut self, id: i32) -> (cancelled: Option<i32>)
        ensures
            cancelled == old(self).scheduled(),
            final(self).scheduled() == Some(id),
    {
        let previous = self.clear();
        self.current_id = Some(id);
        previous
    }
}

impl Default for Interval {
    /// An interval with no scheduled callback.
    fn default() -> (t: Self)
        ensures
            t.scheduled() is None,
    {
        Self::new()
    }
}

} // verus!

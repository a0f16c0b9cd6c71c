//! Timeout bookkeeping: at most one scheduled timeout at a time. Starting a
//! new timeout first cancels the previous one.

use vstd::prelude::*;

verus! {

/// The handle of the currently scheduled timeout, if any.
#[derive(Clone, Copy, Debug, PartialEq, Eq, Structural)]
pub struct Timeout {
    current_id: Option<i32>,
}

impl Timeout {
    /// The handle of the scheduled timeout.
    pub closed spec fn scheduled(&self) -> Option<i32> {
        self.current_id
    }

    /// A timeout with no scheduled callback.
    pub fn new() -> (t: Self)
        ensures
            t.scheduled() is None,
    {
        Timeout { current_id: None }
    }

    /// Returns `true` if a timeout is currently scheduled.
    pub fn is_started(&self) -> (r: bool)
        ensures
            r == self.scheduled() is Some,
    {
        self.current_id.is_some()
    }

    /// Cancels the scheduled timeout: returns its handle, which the caller
    /// hands to `clearTimeout`, and forgets it.
    pub fn clear(&mut self) -> (cancelled: Option<i32>)
        ensures
            cancelled == old(self).scheduled(),
            final(self).scheduled() is None,
    {
        let id = self.current_id;
        self.current_id = None;
        id
    }

    /// Starts tracking a newly scheduled timeout. Returns the handle of the
    /// previous timeout, which the caller cancels.
    pub fn start(&mut self, id: i32) -> (cancelled: Option<i32>)
        ensures
            cancelled == old(self).scheduled(),
            final(self).scheduled() == Some(id),
    {
        let previous = self.clear();
        self.current_id = Some(id);
        previous
    }

    /// The scheduled callback ran: nothing is scheduled any more.
    pub fn fired(&mut self)
        ensures
            final(self).scheduled() is None,
    {
        self.current_id = None;
    }
}

impl Default for Timeout {
    /// A timeout with no scheduled callback.
    fn default() -> (t: Self)
        ensures
            t.scheduled() is None,
    {
        Self::new()
    }
}

} // verus!

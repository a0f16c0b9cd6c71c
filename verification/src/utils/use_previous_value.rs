//! Tracking of the previous distinct value of a changing value.

use vstd::prelude::*;

use vstd::std_specs::cmp::PartialEqSpec;

verus! {

/// The current and previous distinct values seen.
pub struct PreviousValue<T> {
    previous: Option<T>,
    current: Option<T>,
}

impl<T: PartialEq> PreviousValue<T> {
    /// The previous distinct value, if the value changed at least once.
    pub closed spec fn prev(&self) -> Option<T> {
        self.previous
    }

    /// The latest value seen.
    pub closed spec fn latest(&self) -> Option<T> {
        self.current
    }

    /// Nothing seen yet.
    pub fn new() -> (p: Self)
        ensures
            p.prev() is None,
            p.latest() is None,
    {
        PreviousValue { previous: None, current: None }
    }

    /// A new value is seen. When it equals the latest value nothing changes;
    /// otherwise the latest value becomes the previous one. Returns whether
    /// the value changed.
    pub fn observe(&mut self, value: T) -> (changed: bool)
        ensures
            changed ==> final(self).prev() == old(self).latest() && final(self).latest() == Some(
                value,
            ),
            !changed ==> final(self).prev() == old(self).prev() && final(self).latest() == old(self).latest(),
            old(self).latest() is None ==> changed,
            T::obeys_eq_spec() && old(self).latest() is Some ==> (changed <==> !old(self).latest()->0.eq_spec(&value)),
    {
        let same = match &self.current {
            Some(cur) => *cur == value,
            None => false,
        };
        if !same {
            let cur = self.current.take();
            self.previous = cur;
            self.current = Some(value);
        }
        !same
    }

    /// The previous distinct value, if any.
    pub fn previous(&self) -> (r: &Option<T>)
        ensures
            *r == self.prev(),
    {
        &self.previous
    }
}

} // verus!

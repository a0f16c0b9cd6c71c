//! Controlled/uncontrolled values: a value either owned by the component or
//! imposed by its parent.

use vstd::prelude::*;

verus! {

/// A value that is controlled when the parent supplies one, and otherwise
/// held internally, starting from a default.
pub struct Controlled<T> {
    controlled: Option<T>,
    internal: T,
}

impl<T: Copy> Controlled<T> {
    /// The value imposed by the parent, if any.
    pub closed spec fn imposed(&self) -> Option<T> {
        self.controlled
    }

    /// The internally held value.
    pub closed spec fn held(&self) -> T {
        self.internal
    }

    /// The value reads see: the imposed value when controlled, the held one
    /// otherwise.
    pub open spec fn current(&self) -> T {
        match self.imposed() {
            Some(v) => v,
            None => self.held(),
        }
    }

    /// A value controlled by `controlled` when it is present, held
    /// internally from `default_value` otherwise.
    pub fn new(controlled: Option<T>, default_value: T) -> (c: Self)
        ensures
            c.imposed() == controlled,
            c.held() == default_value,
    {
        Controlled { controlled, internal: default_value }
    }

    /// The current value.
    pub fn get(&self) -> (v: T)
        ensures
            v == self.current(),
    {
        match self.controlled {
            Some(v) => v,
            None => self.internal,
        }
    }

    /// Sets the internal value; while controlled, reads keep seeing the
    /// imposed value.
    pub fn set(&mut self, value: T)
        ensures
            final(self).imposed() == old(self).imposed(),
            final(self).held() == value,
    {
        self.internal = value;
    }

    /// The parent imposes a new value (while controlled).
    pub fn sync_controlled(&mut self, value: T)
        requires
            old(self).imposed() is Some,
        ensures
            final(self).imposed() == Some(value),
            final(self).held() == old(self).held(),
    {
        self.controlled = Some(value);
    }
}

/// A value controlled by `controlled` when the parent supplies one, held
/// internally from `default_value` otherwise.
pub fn use_controlled<T: Copy>(controlled: Option<T>, default_value: T) -> (c: Controlled<T>)
    ensures
        c.imposed() == controlled,
        c.held() == default_value,
        c.current() == match controlled {
            Some(v) => v,
            None => default_value,
        },
{
    Controlled::new(controlled, default_value)
}

/// Writes are invisible while controlled, and read back while uncontrolled:
/// for `after`, the value that `set(written)` leaves (same imposed value,
/// `written` held), what `get` returns is the imposed value when there is
/// one and `written` otherwise.
pub proof fn lemma_controlled_writes<T: Copy>(before: Controlled<T>, after: Controlled<T>, written: T)
    requires
        after.imposed() == before.imposed(),
        after.held() == written,
    ensures
        before.imposed() matches Some(v) ==> after.current() == v,
        before.imposed() is None ==> after.current() == written,
{
}

} // verus!

//! Access to the reactive owner's context store, through which providers hand
//! configuration down to descendant components.

use vstd::prelude::*;

verus! {

/// Stores `value` in the context of the current reactive owner by calling
/// `leptos::prelude::provide_context`. When no owner is active the outside
/// function does nothing. Nothing is promised: the effect lives in the
/// reactive runtime, which the library does not model.
#[verifier::external_body]
pub(crate) fn provide_to_owner<T: Send + Sync + 'static>(value: T) {
    leptos::prelude::provide_context(value);
}

/// Looks up a value of type `T` in the context of the current reactive owner
/// and its ancestors by calling `leptos::prelude::use_context`, which returns
/// a clone of the nearest one, or `None`. What comes back depends on the
/// runtime's owner tree at the moment of the call, so no clause states it.
#[verifier::external_body]
pub(crate) fn find_in_owner<T: Clone + 'static>() -> (found: Option<T>) {
    leptos::prelude::use_context::<T>()
}

} // verus!

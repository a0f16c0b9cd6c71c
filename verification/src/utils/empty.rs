//! A no-op callback.

use vstd::prelude::*;

verus! {

/// A no-op function. Useful as a default callback.
pub fn noop() {
}

} // verus!

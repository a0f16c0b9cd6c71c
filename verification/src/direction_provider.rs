//! Text direction (LTR/RTL) for right-to-left layout support.

use vstd::prelude::*;

use crate::context::{find_in_owner, provide_to_owner};

verus! {

/// Text direction for layout and reading order.
#[derive(Clone, Copy, Debug, PartialEq, Eq, Hash, Structural)]
pub enum TextDirection {
    /// Left-to-right (default).
    Ltr,
    /// Right-to-left.
    Rtl,
}

impl TextDirection {
    /// Returns the CSS/HTML `dir` attribute value.
    pub fn as_str(&self) -> (s: &'static str)
        ensures
            s@ == match *self {
                TextDirection::Ltr => "ltr"@,
                TextDirection::Rtl => "rtl"@,
            },
    {
        match self {
            TextDirection::Ltr => "ltr",
            TextDirection::Rtl => "rtl",
        }
    }

    /// Returns `true` if this is right-to-left.
    pub fn is_rtl(&self) -> (r: bool)
        ensures
            r == (*self == TextDirection::Rtl),
    {
        *self == TextDirection::Rtl
    }
}

impl Default for TextDirection {
    /// Left-to-right.
    fn default() -> (r: Self)
        ensures
            r == TextDirection::Ltr,
    {
        TextDirection::Ltr
    }
}

/// The direction a component works with: the one found in context, or
/// left-to-right when no provider exists.
pub fn direction_or_default(found: Option<TextDirection>) -> (r: TextDirection)
    ensures
        r == match found {
            Some(d) => d,
            None => TextDirection::Ltr,
        },
{
    match found {
        Some(d) => d,
        None => TextDirection::default(),
    }
}

/// Provides `direction` to descendant components of the current reactive
/// owner.
pub fn provide_direction(direction: TextDirection) {
    provide_to_owner(direction);
}

/// The direction provided by the nearest ancestor, or left-to-right when no
/// provider exists in the tree. Which provider is nearest is a matter of the
/// reactive runtime; `direction_or_default` states what is returned for each
/// lookup result.
pub fn use_direction() -> (r: TextDirection) {
    let found = find_in_owner::<TextDirection>();
    direction_or_default(found)
}

} // verus!

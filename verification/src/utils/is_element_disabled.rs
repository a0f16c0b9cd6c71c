//! Disabled-state detection from an element's attributes.

use vstd::prelude::*;

use crate::utils::text::same_text;

verus! {

/// The attributes of an element that decide whether it is disabled.
pub struct ElementAttributes {
    /// Whether the element has a `disabled` attribute.
    pub disabled: bool,
    /// The value of its `aria-disabled` attribute, if present.
    pub aria_disabled: Option<String>,
}

/// Check whether an element is disabled: it is missing, has a `disabled`
/// attribute, or has `aria-disabled="true"`.
pub fn is_element_disabled(element: Option<&ElementAttributes>) -> (r: bool)
    ensures
        r == match element {
            None => true,
            Some(e) => e.disabled || (e.aria_disabled matches Some(a) && a@ == "true"@),
        },
{
    match element {
        None => true,
        Some(e) => e.disabled || match &e.aria_disabled {
            Some(a) => same_text(a.as_str(), "true"),
            None => false,
        },
    }
}

} // verus!

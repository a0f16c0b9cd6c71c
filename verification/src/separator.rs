//! Separator: the state of a separator element and the props its custom
//! render function receives.

use vstd::prelude::*;

use crate::utils::orientation::{orientation_text, Orientation};
use crate::utils::props::{attrs_text, RenderProps};

verus! {

/// State of the separator.
#[derive(Clone, Copy, Debug, PartialEq, Eq, Structural)]
pub struct SeparatorState {
    pub orientation: Orientation,
}

/// The props handed to a custom render function of the separator: the
/// `separator` role and its orientation, for assistive technology and as a
/// data attribute.
pub fn separator_props(class: String, style: String, orientation: Orientation) -> (p: RenderProps)
    ensures
        p.class == class,
        p.style == style,
        attrs_text(p.attrs@) == seq![
            ("role"@, "separator"@),
            ("aria-orientation"@, orientation_text(orientation)),
            ("data-orientation"@, orientation_text(orientation)),
        ],
{
    let text = orientation.as_str();
    let p = RenderProps::new(class, style).attr("role", "separator").attr(
        "aria-orientation",
        text,
    ).attr("data-orientation", text);
    assert(attrs_text(p.attrs@) =~= seq![
        ("role"@, "separator"@),
        ("aria-orientation"@, orientation_text(orientation)),
        ("data-orientation"@, orientation_text(orientation)),
    ]);
    p
}

} // verus!

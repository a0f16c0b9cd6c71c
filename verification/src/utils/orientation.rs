//! Layout orientation.

use vstd::prelude::*;

verus! {

/// Layout orientation for components like separators, sliders, toolbars.
#[derive(Clone, Copy, Debug, PartialEq, Eq, Hash, Structural)]
pub enum Orientation {
    Horizontal,
    Vertical,
}

/// The CSS/ARIA attribute text of an orientation.
pub open spec fn orientation_text(o: Orientation) -> Seq<char> {
    match o {
        Orientation::Horizontal => "horizontal"@,
        Orientation::Vertical => "vertical"@,
    }
}

/// Each orientation has its own attribute text, `horizontal` for a
/// horizontal layout and `vertical` for a vertical one, so the text tells
/// the orientations apart.
pub proof fn lemma_orientation_text(o: Orientation, p: Orientation)
    ensures
        o == Orientation::Horizontal ==> orientation_text(o) == "horizontal"@,
        o == Orientation::Vertical ==> orientation_text(o) == "vertical"@,
        orientation_text(o) == orientation_text(p) ==> o == p,
{
    reveal_strlit("horizontal");
    reveal_strlit("vertical");
    if o != p {
        assert(orientation_text(o).len() != orientation_text(p).len());
    }
}

impl Orientation {
    /// Returns the CSS/ARIA attribute value.
    pub fn as_str(&self) -> (s: &'static str)
        ensures
            s@ == orientation_text(*self),
    {
        match self {
            Orientation::Horizontal => "horizontal",
            Orientation::Vertical => "vertical",
        }
    }
}

impl Orientation {
    /// The attribute value as an owned string (the type's display form).
    pub fn to_string(&self) -> (s: String)
        ensures
            s@ == orientation_text(*self),
    {
        String::from_str(self.as_str())
    }
}

impl Default for Orientation {
    /// Horizontal.
    fn default() -> (r: Self)
        ensures
            r == Orientation::Horizontal,
    {
        Orientation::Horizontal
    }
}

} // verus!

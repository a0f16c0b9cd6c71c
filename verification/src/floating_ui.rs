//! Placement vocabulary for floating elements: side, alignment and their
//! combination.

use vstd::prelude::*;

verus! {

/// Side of the reference element where the floating element is placed.
#[derive(Clone, Copy, Debug, PartialEq, Eq, Hash, Structural)]
pub enum Side {
    Top,
    Bottom,
    Left,
    Right,
}

/// The attribute text of a side.
pub open spec fn side_text(side: Side) -> Seq<char> {
    match side {
        Side::Top => "top"@,
        Side::Bottom => "bottom"@,
        Side::Left => "left"@,
        Side::Right => "right"@,
    }
}

/// The side across from `side`.
pub open spec fn opposite_side(side: Side) -> Side {
    match side {
        Side::Top => Side::Bottom,
        Side::Bottom => Side::Top,
        Side::Left => Side::Right,
        Side::Right => Side::Left,
    }
}

impl Side {
    pub fn as_str(&self) -> (s: &'static str)
        ensures
            s@ == side_text(*self),
    {
        match self {
            Side::Top => "top",
            Side::Bottom => "bottom",
            Side::Left => "left",
            Side::Right => "right",
        }
    }

    /// Returns the opposite side.
    pub fn opposite(&self) -> (r: Self)
        ensures
            r == opposite_side(*self),
    {
        match self {
            Side::Top => Side::Bottom,
            Side::Bottom => Side::Top,
            Side::Left => Side::Right,
            Side::Right => Side::Left,
        }
    }
}

impl Default for Side {
    /// Bottom.
    fn default() -> (r: Self)
        ensures
            r == Side::Bottom,
    {
        Side::Bottom
    }
}

/// Taking the opposite side twice gives back the side, and no side is its
/// own opposite.
pub proof fn lemma_opposite_involution(side: Side)
    ensures
        opposite_side(opposite_side(side)) == side,
        opposite_side(side) != side,
{
}

/// Alignment of the floating element along the side axis.
#[derive(Clone, Copy, Debug, PartialEq, Eq, Hash, Structural)]
pub enum Alignment {
    Start,
    Center,
    End,
}

/// The attribute text of an alignment.
pub open spec fn alignment_text(alignment: Alignment) -> Seq<char> {
    match alignment {
        Alignment::Start => "start"@,
        Alignment::Center => "center"@,
        Alignment::End => "end"@,
    }
}

impl Alignment {
    pub fn as_str(&self) -> (s: &'static str)
        ensures
            s@ == alignment_text(*self),
    {
        match self {
            Alignment::Start => "start",
            Alignment::Center => "center",
            Alignment::End => "end",
        }
    }
}

/// Combined placement: side and optional alignment.
#[derive(Clone, Copy, Debug, PartialEq, Eq, Hash, Structural)]
pub struct Placement {
    pub side: Side,
    pub alignment: Option<Alignment>,
}

/// The placement text: the side, followed by `-` and the alignment when
/// there is one (`"top"`, `"bottom-start"`).
pub open spec fn placement_text(p: Placement) -> Seq<char> {
    match p.alignment {
        Some(a) => side_text(p.side) + seq!['-'] + alignment_text(a),
        None => side_text(p.side),
    }
}

impl Default for Placement {
    /// Bottom, with no alignment.
    fn default() -> (r: Self)
        ensures
            r.side == Side::Bottom,
            r.alignment is None,
    {
        Placement { side: Side::Bottom, alignment: None }
    }
}

impl Placement {
    pub fn new(side: Side, alignment: Option<Alignment>) -> (r: Self)
        ensures
            r.side == side,
            r.alignment == alignment,
    {
        Placement { side, alignment }
    }

    /// Returns the placement as a string (e.g., "top", "bottom-start").
    pub fn as_str(&self) -> (s: String)
        ensures
            s@ == placement_text(*self),
    {
        let mut s = String::from_str(self.side.as_str());
        match self.alignment {
            Some(align) => {
                s.append("-");
                s.append(align.as_str());
                proof {
                    reveal_strlit("-");
                }
            },
            None => {},
        }
        s
    }

    /// The placement text as an owned string (the type's display form).
    pub fn to_string(&self) -> (s: String)
        ensures
            s@ == placement_text(*self),
    {
        self.as_str()
    }
}

} // verus!

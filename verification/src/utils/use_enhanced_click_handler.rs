//! Interaction-type detection for clicks: which of mouse, touch, pen or
//! keyboard triggered a click.

use vstd::prelude::*;

use crate::utils::text::same_text;

verus! {

/// The type of interaction that triggered a click.
#[derive(Debug, Clone, Copy, PartialEq, Eq, Structural)]
pub enum InteractionType {
    Mouse,
    Touch,
    Pen,
    Keyboard,
    Unknown,
}

/// The interaction type named by a `PointerEvent.pointerType` string.
pub open spec fn pointer_type_of(s: Seq<char>) -> InteractionType {
    if s == "mouse"@ {
        InteractionType::Mouse
    } else if s == "touch"@ {
        InteractionType::Touch
    } else if s == "pen"@ {
        InteractionType::Pen
    } else {
        InteractionType::Unknown
    }
}

impl InteractionType {
    /// Parse from a `PointerEvent.pointerType` string.
    pub fn from_pointer_type(s: &str) -> (r: Self)
        ensures
            r == pointer_type_of(s@),
    {
        if same_text(s, "mouse") {
            InteractionType::Mouse
        } else if same_text(s, "touch") {
            InteractionType::Touch
        } else if same_text(s, "pen") {
            InteractionType::Pen
        } else {
            InteractionType::Unknown
        }
    }
}

/// The interaction remembered between a `pointerdown` and the `click` that
/// follows it, for browsers whose click event carries no pointer type.
#[derive(Debug, Clone, Copy, PartialEq, Eq, Structural)]
pub struct ClickTracker {
    pub last_interaction: InteractionType,
}

impl ClickTracker {
    /// A tracker that has seen no pointer yet.
    pub fn new() -> (t: Self)
        ensures
            t.last_interaction == InteractionType::Unknown,
    {
        ClickTracker { last_interaction: InteractionType::Unknown }
    }

    /// A `pointerdown` event: ignored when its default was prevented;
    /// otherwise the pointer type is remembered and reported.
    pub fn pointer_down(&mut self, default_prevented: bool, pointer_type: &str) -> (r: Option<
        InteractionType,
    >)
        ensures
            default_prevented ==> r is None && *final(self) == *old(self),
            !default_prevented ==> r == Some(pointer_type_of(pointer_type@))
                && final(self).last_interaction == pointer_type_of(pointer_type@),
    {
        if default_prevented {
            return None;
        }
        let interaction = InteractionType::from_pointer_type(pointer_type);
        self.last_interaction = interaction;
        Some(interaction)
    }

    /// A `click` event: a click with detail 0 comes from the keyboard;
    /// otherwise the click's own pointer type is used when the event carries
    /// one, else the one remembered from `pointerdown`. After a pointer click
    /// the remembered type is forgotten.
    pub fn click(&mut self, detail: i32, pointer_type: Option<&str>) -> (r: InteractionType)
        ensures
            detail == 0 ==> r == InteractionType::Keyboard && *final(self) == *old(self),
            detail != 0 ==> final(self).last_interaction == InteractionType::Unknown,
            detail != 0 ==> match pointer_type {
                Some(p) => r == pointer_type_of(p@),
                None => r == old(self).last_interaction,
            },
    {
        if detail == 0 {
            return InteractionType::Keyboard;
        }
        let interaction = match pointer_type {
            Some(p) => InteractionType::from_pointer_type(p),
            None => self.last_interaction,
        };
        self.last_interaction = InteractionType::Unknown;
        interaction
    }
}

} // verus!

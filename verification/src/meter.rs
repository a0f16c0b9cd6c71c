//! Meter: the state its parts are parameterised over, and the props and text
//! rules of those parts.

use vstd::prelude::*;

use crate::utils::props::{attrs_text, RenderProps};

verus! {

/// State of the meter parts. A meter has no state of its own; the type
/// exists so class, style and render props have a state to receive.
#[derive(Clone, Copy, Debug, PartialEq, Eq, Default, Structural)]
pub struct MeterState {}

/// The default `aria-valuetext` of a meter: its value (as text) followed by
/// a percent sign.
pub fn meter_aria_value_text(value: &str) -> (s: String)
    ensures
        s@ == value@ + "%"@,
{
    let mut s = String::from_str(value);
    s.append("%");
    s
}

/// The props handed to a custom render function of the meter root: the
/// `meter` role, the value range, the current value and its text.
pub fn meter_root_props(
    class: String,
    style: String,
    max: &str,
    min: &str,
    now: &str,
    value_text: &str,
) -> (p: RenderProps)
    ensures
        p.class == class,
        p.style == style,
        attrs_text(p.attrs@) == seq![
            ("role"@, "meter"@),
            ("aria-valuemax"@, max@),
            ("aria-valuemin"@, min@),
            ("aria-valuenow"@, now@),
            ("aria-valuetext"@, value_text@),
        ],
{
    let p = RenderProps::new(class, style).attr("role", "meter").attr("aria-valuemax", max).attr(
        "aria-valuemin",
        min,
    ).attr("aria-valuenow", now).attr("aria-valuetext", value_text);
    assert(attrs_text(p.attrs@) =~= seq![
        ("role"@, "meter"@),
        ("aria-valuemax"@, max@),
        ("aria-valuemin"@, min@),
        ("aria-valuenow"@, now@),
        ("aria-valuetext"@, value_text@),
    ]);
    p
}

/// The props of a custom render function of the value part: hidden from
/// assistive technology, since the root carries the value text.
pub fn meter_value_props(class: String, style: String) -> (p: RenderProps)
    ensures
        p.class == class,
        p.style == style,
        attrs_text(p.attrs@) == seq![("aria-hidden"@, "true"@)],
{
    let p = RenderProps::new(class, style).attr("aria-hidden", "true");
    assert(attrs_text(p.attrs@) =~= seq![("aria-hidden"@, "true"@)]);
    p
}

/// The props of a custom render function of the label part: its id, which
/// the root names in `aria-labelledby`.
pub fn meter_label_props(class: String, style: String, id: &str) -> (p: RenderProps)
    ensures
        p.class == class,
        p.style == style,
        attrs_text(p.attrs@) == seq![("id"@, id@)],
{
    let p = RenderProps::new(class, style).attr("id", id);
    assert(attrs_text(p.attrs@) =~= seq![("id"@, id@)]);
    p
}

/// The text the value part shows: the formatted value, or the raw value
/// when formatting gave nothing.
pub fn meter_value_display(formatted: &str, raw: &str) -> (s: String)
    ensures
        formatted@.len() > 0 ==> s@ == formatted@,
        formatted@.len() == 0 ==> s@ == raw@,
{
    if formatted.is_empty() {
        String::from_str(raw)
    } else {
        String::from_str(formatted)
    }
}

} // verus!

//! Progress: the status derived from the current value, the data attributes
//! each status sets, and the text and style rules of the progress parts.

use vstd::prelude::*;

use crate::utils::props::{attrs_text, RenderProps};

verus! {

/// Progress status derived from the current value.
#[derive(Clone, Copy, Debug, PartialEq, Eq, Hash, Structural)]
pub enum ProgressStatus {
    /// The value is unknown.
    Indeterminate,
    /// The value is below the maximum.
    Progressing,
    /// The value reached the maximum.
    Complete,
}

/// The text of a status.
pub open spec fn status_text(status: ProgressStatus) -> Seq<char> {
    match status {
        ProgressStatus::Indeterminate => "indeterminate"@,
        ProgressStatus::Progressing => "progressing"@,
        ProgressStatus::Complete => "complete"@,
    }
}

/// The data attribute that marks a status.
pub open spec fn status_attr(status: ProgressStatus) -> Seq<char> {
    match status {
        ProgressStatus::Indeterminate => "data-indeterminate"@,
        ProgressStatus::Progressing => "data-progressing"@,
        ProgressStatus::Complete => "data-complete"@,
    }
}

impl ProgressStatus {
    /// Returns the status string for data attribute values.
    pub fn as_str(&self) -> (s: &'static str)
        ensures
            s@ == status_text(*self),
    {
        match self {
            ProgressStatus::Indeterminate => "indeterminate",
            ProgressStatus::Progressing => "progressing",
            ProgressStatus::Complete => "complete",
        }
    }
}

/// State of the progress parts.
#[derive(Clone, Copy, Debug, PartialEq, Eq, Structural)]
pub struct ProgressState {
    pub status: ProgressStatus,
}

/// The value of the data attribute that marks status `marked` on a part
/// whose status is `status`: present and empty when they agree, absent
/// otherwise.
pub fn status_marker(status: ProgressStatus, marked: ProgressStatus) -> (r: Option<&'static str>)
    ensures
        status == marked ==> (r matches Some(v) && v@ == Seq::<char>::empty()),
        status != marked ==> r is None,
{
    proof {
        reveal_strlit("");
    }
    if status == marked {
        Some("")
    } else {
        None
    }
}

/// The data attributes of a status: exactly one, the status's own marker,
/// with an empty value.
pub fn progress_status_attrs(status: ProgressStatus) -> (attrs: Vec<(&'static str, String)>)
    ensures
        attrs@.len() == 1,
        attrs@[0].0@ == status_attr(status),
        attrs@[0].1@ == Seq::<char>::empty(),
{
    let mut attrs: Vec<(&'static str, String)> = Vec::new();
    if status == ProgressStatus::Indeterminate {
        attrs.push(("data-indeterminate", String::new()));
    }
    if status == ProgressStatus::Progressing {
        attrs.push(("data-progressing", String::new()));
    }
    if status == ProgressStatus::Complete {
        attrs.push(("data-complete", String::new()));
    }
    attrs
}

/// The default `aria-valuetext` of a progress bar: `"indeterminate progress"`
/// without a value; otherwise the formatted value, or `fallback` when the
/// formatted value is empty.
pub fn progress_aria_value_text(has_value: bool, formatted: &str, fallback: &str) -> (s: String)
    ensures
        !has_value ==> s@ == "indeterminate progress"@,
        has_value && formatted@.len() > 0 ==> s@ == formatted@,
        has_value && formatted@.len() == 0 ==> s@ == fallback@,
{
    if !has_value {
        String::from_str("indeterminate progress")
    } else if !formatted.is_empty() {
        String::from_str(formatted)
    } else {
        String::from_str(fallback)
    }
}

/// The style of the indicator: its own positioning style, followed by a
/// space and the user's style when the user gave one.
pub fn indicator_style(internal: &str, user: &str) -> (s: String)
    ensures
        user@.len() == 0 ==> s@ == internal@,
        user@.len() > 0 ==> s@ == internal@ + seq![' '] + user@,
{
    let mut s = String::from_str(internal);
    if !user.is_empty() {
        s.append(" ");
        s.append(user);
        proof {
            reveal_strlit(" ");
        }
    }
    s
}

/// The position style of an indicator filled to `percent` percent.
pub open spec fn position_style_text(percent: Seq<char>) -> Seq<char> {
    "inset-inline-start: 0; height: inherit; width: "@ + percent + "%;"@
}

/// The indicator's own style for a fill of `percent` percent (the number as
/// text): anchored at the inline start, inheriting the track's height.
pub fn indicator_position_style(percent: &str) -> (s: String)
    ensures
        s@ == position_style_text(percent@),
{
    let mut s = String::from_str("inset-inline-start: 0; height: inherit; width: ");
    s.append(percent);
    s.append("%;");
    s
}

/// `props` with the data attribute of `status` added after its attributes.
pub fn with_status_attr(props: RenderProps, status: ProgressStatus) -> (p: RenderProps)
    ensures
        p.class == props.class,
        p.style == props.style,
        attrs_text(p.attrs@) == attrs_text(props.attrs@).push(
            (status_attr(status), Seq::<char>::empty()),
        ),
{
    let attrs = progress_status_attrs(status);
    let name = attrs[0].0;
    props.attr(name, attrs[0].1.as_str())
}

/// The props handed to a custom render function of the progress root: the
/// `progressbar` role, the value range and text, the current value when
/// known, and the status marker.
pub fn progress_root_props(
    class: String,
    style: String,
    max: &str,
    min: &str,
    value_text: &str,
    value_now: Option<&str>,
    status: ProgressStatus,
) -> (p: RenderProps)
    ensures
        p.class == class,
        p.style == style,
        attrs_text(p.attrs@) == seq![
            ("role"@, "progressbar"@),
            ("aria-valuemax"@, max@),
            ("aria-valuemin"@, min@),
            ("aria-valuetext"@, value_text@),
        ] + match value_now {
            Some(v) => seq![("aria-valuenow"@, v@)],
            None => Seq::empty(),
        } + seq![(status_attr(status), Seq::<char>::empty())],
{
    let props = RenderProps::new(class, style).attr("role", "progressbar").attr(
        "aria-valuemax",
        max,
    ).attr("aria-valuemin", min).attr("aria-valuetext", value_text);
    let props = match value_now {
        Some(v) => props.attr("aria-valuenow", v),
        None => props,
    };
    let p = with_status_attr(props, status);
    proof {
        let base: Seq<(Seq<char>, Seq<char>)> = seq![
            ("role"@, "progressbar"@),
            ("aria-valuemax"@, max@),
            ("aria-valuemin"@, min@),
            ("aria-valuetext"@, value_text@),
        ];
        let now: Seq<(Seq<char>, Seq<char>)> = match value_now {
            Some(v) => seq![("aria-valuenow"@, v@)],
            None => Seq::empty(),
        };
        assert(attrs_text(p.attrs@) =~= base + now + seq![(status_attr(status), Seq::<char>::empty())]);
    }
    p
}

/// The props of a custom render function of the track or the indicator:
/// the class, the style and the status marker.
pub fn progress_part_props(class: String, style: String, status: ProgressStatus) -> (p:
    RenderProps)
    ensures
        p.class == class,
        p.style == style,
        attrs_text(p.attrs@) == seq![(status_attr(status), Seq::<char>::empty())],
{
    let p = with_status_attr(RenderProps::new(class, style), status);
    assert(attrs_text(p.attrs@) =~= seq![(status_attr(status), Seq::<char>::empty())]);
    p
}

/// The props of a custom render function of the value part: hidden from
/// assistive technology (the root carries the value text), with the status
/// marker.
pub fn progress_value_props(class: String, style: String, status: ProgressStatus) -> (p:
    RenderProps)
    ensures
        p.class == class,
        p.style == style,
        attrs_text(p.attrs@) == seq![
            ("aria-hidden"@, "true"@),
            (status_attr(status), Seq::<char>::empty()),
        ],
{
    let p = with_status_attr(RenderProps::new(class, style).attr("aria-hidden", "true"), status);
    assert(attrs_text(p.attrs@) =~= seq![
        ("aria-hidden"@, "true"@),
        (status_attr(status), Seq::<char>::empty()),
    ]);
    p
}

/// The props of a custom render function of the label part: its id (which
/// the root names in `aria-labelledby`) and the status marker.
pub fn progress_label_props(class: String, style: String, id: &str, status: ProgressStatus) -> (p:
    RenderProps)
    ensures
        p.class == class,
        p.style == style,
        attrs_text(p.attrs@) == seq![("id"@, id@), (status_attr(status), Seq::<char>::empty())],
{
    let p = with_status_attr(RenderProps::new(class, style).attr("id", id), status);
    assert(attrs_text(p.attrs@) =~= seq![
        ("id"@, id@),
        (status_attr(status), Seq::<char>::empty()),
    ]);
    p
}

/// The text the value part shows: the formatted value, or nothing while the
/// progress is indeterminate.
pub fn progress_value_display(has_value: bool, formatted: &str) -> (s: String)
    ensures
        has_value ==> s@ == formatted@,
        !has_value ==> s@ == Seq::<char>::empty(),
{
    if has_value {
        String::from_str(formatted)
    } else {
        String::new()
    }
}

} // verus!

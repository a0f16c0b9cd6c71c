//! Fieldset: the state shared by the root and legend parts, and the props
//! their custom render functions receive.

use vstd::prelude::*;

use crate::utils::props::{attrs_text, RenderProps};

verus! {

/// State of the fieldset parts.
#[derive(Clone, Copy, Debug, PartialEq, Eq, Structural)]
pub struct FieldsetState {
    pub disabled: bool,
}

/// The `data-disabled` marker while disabled, nothing otherwise.
pub open spec fn disabled_attrs(disabled: bool) -> Seq<(Seq<char>, Seq<char>)> {
    if disabled {
        seq![("data-disabled"@, Seq::<char>::empty())]
    } else {
        Seq::empty()
    }
}

/// `props` with the `data-disabled` marker added while disabled.
fn with_disabled_attr(props: RenderProps, disabled: bool) -> (p: RenderProps)
    ensures
        p.class == props.class,
        p.style == props.style,
        attrs_text(p.attrs@) == attrs_text(props.attrs@) + disabled_attrs(disabled),
{
    proof {
        reveal_strlit("");
        assert(""@ =~= Seq::<char>::empty());
    }
    if disabled {
        let ghost before = attrs_text(props.attrs@);
        let p = props.attr("data-disabled", "");
        assert(attrs_text(p.attrs@) =~= before + disabled_attrs(disabled));
        p
    } else {
        assert(attrs_text(props.attrs@) + disabled_attrs(disabled) =~= attrs_text(props.attrs@));
        props
    }
}

/// The props handed to a custom render function of the fieldset root: the
/// `data-disabled` marker while disabled.
pub fn fieldset_root_props(class: String, style: String, disabled: bool) -> (p: RenderProps)
    ensures
        p.class == class,
        p.style == style,
        attrs_text(p.attrs@) == disabled_attrs(disabled),
{
    let p = with_disabled_attr(RenderProps::new(class, style), disabled);
    assert(attrs_text(p.attrs@) =~= disabled_attrs(disabled));
    p
}

/// The props of a custom render function of the legend: its id (which the
/// root names in `aria-labelledby`), then the `data-disabled` marker while
/// disabled.
pub fn fieldset_legend_props(class: String, style: String, id: &str, disabled: bool) -> (p:
    RenderProps)
    ensures
        p.class == class,
        p.style == style,
        attrs_text(p.attrs@) == seq![("id"@, id@)] + disabled_attrs(disabled),
{
    let p = with_disabled_attr(RenderProps::new(class, style).attr("id", id), disabled);
    assert(attrs_text(p.attrs@) =~= seq![("id"@, id@)] + disabled_attrs(disabled));
    p
}

} // verus!

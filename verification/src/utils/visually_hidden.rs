//! CSS for elements that are hidden visually but stay accessible to screen
//! readers.

use vstd::prelude::*;

verus! {

/// CSS style string for visually hidden elements (fixed positioning).
pub const VISUALLY_HIDDEN: &'static str = "clip-path:inset(50%);overflow:hidden;white-space:nowrap;border:0;padding:0;width:1px;height:1px;margin:-1px;position:fixed;top:0;left:0";

/// CSS style string for visually hidden input elements (absolute
/// positioning).
pub const VISUALLY_HIDDEN_INPUT: &'static str = "clip-path:inset(50%);overflow:hidden;white-space:nowrap;border:0;padding:0;width:1px;height:1px;margin:-1px;position:absolute";

/// The style text of a list of declarations: `name:value` pairs joined by
/// `;`.
pub open spec fn style_text(decls: Seq<(Seq<char>, Seq<char>)>) -> Seq<char>
    decreases decls.len(),
{
    if decls.len() == 0 {
        Seq::empty()
    } else if decls.len() == 1 {
        decls[0].0 + ":"@ + decls[0].1
    } else {
        style_text(decls.drop_last()) + ";"@ + decls.last().0 + ":"@ + decls.last().1
    }
}

/// The declarations as text.
pub open spec fn decls_text(decls: Seq<(&'static str, &'static str)>) -> Seq<(Seq<char>, Seq<char>)> {
    decls.map_values(|d: (&'static str, &'static str)| (d.0@, d.1@))
}

/// The declarations that hide an element visually, one property at a time,
/// for setting on an element's style: those of `VISUALLY_HIDDEN_INPUT` for
/// an input, else those of `VISUALLY_HIDDEN`.
pub fn visually_hidden_declarations(input: bool) -> (d: Vec<(&'static str, &'static str)>)
    ensures
        input ==> style_text(decls_text(d@)) == VISUALLY_HIDDEN_INPUT@,
        !input ==> style_text(decls_text(d@)) == VISUALLY_HIDDEN@,
{
    let mut d: Vec<(&'static str, &'static str)> = Vec::new();
    d.push(("clip-path", "inset(50%)"));
    d.push(("overflow", "hidden"));
    d.push(("white-space", "nowrap"));
    d.push(("border", "0"));
    d.push(("padding", "0"));
    d.push(("width", "1px"));
    d.push(("height", "1px"));
    d.push(("margin", "-1px"));
    if input {
        d.push(("position", "absolute"));
    } else {
        d.push(("position", "fixed"));
        d.push(("top", "0"));
        d.push(("left", "0"));
    }
    proof {
        reveal_strlit("clip-path");
        reveal_strlit("inset(50%)");
        reveal_strlit("overflow");
        reveal_strlit("hidden");
        reveal_strlit("white-space");
        reveal_strlit("nowrap");
        reveal_strlit("border");
        reveal_strlit("0");
        reveal_strlit("padding");
        reveal_strlit("width");
        reveal_strlit("1px");
        reveal_strlit("height");
        reveal_strlit("margin");
        reveal_strlit("-1px");
        reveal_strlit("position");
        reveal_strlit("absolute");
        reveal_strlit("fixed");
        reveal_strlit("top");
        reveal_strlit("left");
        reveal_strlit(":");
        reveal_strlit(";");
        reveal_strlit("clip-path:inset(50%);overflow:hidden;white-space:nowrap;border:0;padding:0;width:1px;height:1px;margin:-1px;position:fixed;top:0;left:0");
        reveal_strlit("clip-path:inset(50%);overflow:hidden;white-space:nowrap;border:0;padding:0;width:1px;height:1px;margin:-1px;position:absolute");
        let t = decls_text(d@);
        reveal_with_fuel(style_text, 12);
        if input {
            assert(style_text(t) =~= VISUALLY_HIDDEN_INPUT@);
        } else {
            assert(style_text(t) =~= VISUALLY_HIDDEN@);
        }
    }
    d
}

} // verus!

//! Merging of two optional class name strings.

use vstd::prelude::*;

verus! {

/// The merged class names: `theirs` first, then `ours`, separated by a
/// space; only the present one when just one is present.
pub open spec fn merged_class_names(ours: Option<Seq<char>>, theirs: Option<Seq<char>>) -> Option<
    Seq<char>,
> {
    match (theirs, ours) {
        (Some(t), Some(o)) => Some(t + seq![' '] + o),
        (Some(t), None) => Some(t),
        (None, Some(o)) => Some(o),
        (None, None) => None,
    }
}

/// The view of an optional string slice.
pub open spec fn opt_text(s: Option<&str>) -> Option<Seq<char>> {
    match s {
        Some(t) => Some(t@),
        None => None,
    }
}

/// The view of an optional string.
pub open spec fn opt_string(s: Option<String>) -> Option<Seq<char>> {
    match s {
        Some(t) => Some(t@),
        None => None,
    }
}

/// Merges two optional class name strings.
///
/// Returns a combined string with `theirs` first, then `ours`, separated by
/// a space. If only one is present, returns it directly.
pub fn merge_class_names(ours: Option<&str>, theirs: Option<&str>) -> (r: Option<String>)
    ensures
        opt_string(r) == merged_class_names(opt_text(ours), opt_text(theirs)),
{
    match (theirs, ours) {
        (Some(t), Some(o)) => {
            let mut s = String::from_str(t);
            s.append(" ");
            s.append(o);
            proof {
                reveal_strlit(" ");
            }
            Some(s)
        },
        (Some(t), None) => Some(String::from_str(t)),
        (None, Some(o)) => Some(String::from_str(o)),
        (None, None) => None,
    }
}

} // verus!

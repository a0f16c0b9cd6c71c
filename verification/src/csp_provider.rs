//! Content Security Policy configuration shared with components that emit
//! inline `<style>` or `<script>` tags.

use vstd::prelude::*;

use crate::context::{find_in_owner, provide_to_owner};

verus! {

/// CSP configuration passed down through context.
#[derive(Clone, Debug, PartialEq)]
pub struct CspContext {
    /// Nonce value to apply to inline `<style>` and `<script>` tags.
    pub nonce: Option<String>,
    /// Whether inline `<style>` elements created by components should not be
    /// rendered.
    pub disable_style_elements: bool,
}

impl Default for CspContext {
    /// No nonce, and inline style elements allowed.
    fn default() -> (r: Self)
        ensures
            r.nonce is None,
            !r.disable_style_elements,
    {
        CspContext { nonce: None, disable_style_elements: false }
    }
}

/// Whether a component may render an inline `<style>` element under `csp`.
pub fn style_elements_allowed(csp: &CspContext) -> (r: bool)
    ensures
        r == !csp.disable_style_elements,
{
    !csp.disable_style_elements
}

/// The configuration a component works with: the one found in context, or
/// the default (no nonce, style elements allowed) when no provider exists.
pub fn csp_or_default(found: Option<CspContext>) -> (r: CspContext)
    ensures
        match found {
            Some(c) => r == c,
            None => r.nonce is None && !r.disable_style_elements,
        },
{
    match found {
        Some(c) => c,
        None => CspContext::default(),
    }
}

/// Provides `context` to descendant components of the current reactive owner.
pub fn provide_csp(context: CspContext) {
    provide_to_owner(context);
}

/// The CSP configuration provided by the nearest ancestor, or the default when
/// no provider exists in the tree. Which provider is nearest is a matter of
/// the reactive runtime; `csp_or_default` states what is returned for each
/// lookup result.
pub fn use_csp() -> (r: CspContext) {
    let found = find_in_owner::<CspContext>();
    csp_or_default(found)
}

} // verus!

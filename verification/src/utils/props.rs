//! Props for headless component customisation: a class or style that is a
//! fixed string or computed from the component's state, the resolved
//! attributes handed to a custom renderer, and the custom renderer itself.

use vstd::prelude::*;

use core::marker::PhantomData;

verus! {

/// Where a class or style comes from: a fixed string or a function of the
/// component's state.
pub enum PropSource<F> {
    Fixed(String),
    Computed(F),
}

/// Whether a source can be resolved for `state`.
pub open spec fn source_accepts<S, F: Fn(&S) -> String>(source: PropSource<F>, state: &S) -> bool {
    match source {
        PropSource::Fixed(_) => true,
        PropSource::Computed(f) => f.requires((state,)),
    }
}

/// Whether `r` is what a source resolves to for `state`: the fixed string,
/// or a result the function may return.
pub open spec fn source_resolves<S, F: Fn(&S) -> String>(
    source: PropSource<F>,
    state: &S,
    r: Seq<char>,
) -> bool {
    match source {
        PropSource::Fixed(s) => r == s@,
        PropSource::Computed(f) => exists|out: String| f.ensures((state,), out) && out@ == r,
    }
}

/// Resolves a source for `state`.
fn resolve_source<S, F: Fn(&S) -> String>(source: &PropSource<F>, state: &S) -> (r: String)
    requires
        source_accepts(*source, state),
    ensures
        source_resolves(*source, state, r@),
{
    match source {
        PropSource::Fixed(s) => s.clone(),
        PropSource::Computed(f) => f(state),
    }
}

/// `Some` of a non-empty string, `None` of an empty one.
pub open spec fn non_empty(s: Seq<char>) -> Option<Seq<char>> {
    if s.len() == 0 {
        None
    } else {
        Some(s)
    }
}

/// A CSS class prop: a fixed string or a function of the component state.
pub struct ClassProp<S, F> {
    pub source: PropSource<F>,
    pub state: PhantomData<S>,
}

impl<S, F: Fn(&S) -> String> ClassProp<S, F> {
    /// Resolve the class string for the given state.
    pub fn resolve(&self, state: &S) -> (r: String)
        requires
            source_accepts(self.source, state),
        ensures
            source_resolves(self.source, state, r@),
    {
        resolve_source(&self.source, state)
    }

    /// Like `resolve`, but returns `None` when the result is empty.
    pub fn resolve_option(&self, state: &S) -> (r: Option<String>)
        requires
            source_accepts(self.source, state),
        ensures
            exists|full: Seq<char>|
                source_resolves(self.source, state, full) && match r {
                    Some(s) => non_empty(full) == Some(s@),
                    None => non_empty(full) is None,
                },
    {
        let s = self.resolve(state);
        if s.as_str().is_empty() {
            None
        } else {
            Some(s)
        }
    }
}

impl<S, F> Default for ClassProp<S, F> {
    /// The empty class.
    fn default() -> (p: Self)
        ensures
            p.source matches PropSource::Fixed(s) && s@.len() == 0,
    {
        ClassProp { source: PropSource::Fixed(String::new()), state: PhantomData }
    }
}

impl<'a, S, F> From<&'a str> for ClassProp<S, F> {
    /// A fixed class.
    fn from(s: &'a str) -> (p: Self)
        ensures
            p.source matches PropSource::Fixed(t) && t@ == s@,
    {
        ClassProp { source: PropSource::Fixed(String::from_str(s)), state: PhantomData }
    }
}

impl<'a, S, F> vstd::std_specs::convert::FromSpecImpl<&'a str> for ClassProp<S, F> {
    open spec fn obeys_from_spec() -> bool {
        false
    }

    open spec fn from_spec(v: &'a str) -> Self {
        arbitrary()
    }
}

impl<S, F> From<String> for ClassProp<S, F> {
    /// A fixed class.
    fn from(s: String) -> (p: Self)
        ensures
            p.source matches PropSource::Fixed(t) && t@ == s@,
    {
        ClassProp { source: PropSource::Fixed(s), state: PhantomData }
    }
}

impl<S, F> vstd::std_specs::convert::FromSpecImpl<String> for ClassProp<S, F> {
    open spec fn obeys_from_spec() -> bool {
        true
    }

    open spec fn from_spec(v: String) -> Self {
        ClassProp { source: PropSource::Fixed(v), state: PhantomData }
    }
}

impl<S, F: Fn(&S) -> String> From<F> for ClassProp<S, F> {
    /// A class computed from the state.
    fn from(f: F) -> (p: Self)
        ensures
            p.source == PropSource::Computed(f),
    {
        ClassProp { source: PropSource::Computed(f), state: PhantomData }
    }
}

impl<S, F: Fn(&S) -> String> vstd::std_specs::convert::FromSpecImpl<F> for ClassProp<S, F> {
    open spec fn obeys_from_spec() -> bool {
        true
    }

    open spec fn from_spec(v: F) -> Self {
        ClassProp { source: PropSource::Computed(v), state: PhantomData }
    }
}

/// An inline style prop (a CSS declaration string): a fixed string or a
/// function of the component state.
pub struct StyleProp<S, F> {
    pub source: PropSource<F>,
    pub state: PhantomData<S>,
}

impl<S, F: Fn(&S) -> String> StyleProp<S, F> {
    /// Resolve the style string for the given state.
    pub fn resolve(&self, state: &S) -> (r: String)
        requires
            source_accepts(self.source, state),
        ensures
            source_resolves(self.source, state, r@),
    {
        resolve_source(&self.source, state)
    }

    /// Like `resolve`, but returns `None` when the result is empty.
    pub fn resolve_option(&self, state: &S) -> (r: Option<String>)
        requires
            source_accepts(self.source, state),
        ensures
            exists|full: Seq<char>|
                source_resolves(self.source, state, full) && match r {
                    Some(s) => non_empty(full) == Some(s@),
                    None => non_empty(full) is None,
                },
    {
        let s = self.resolve(state);
        if s.as_str().is_empty() {
            None
        } else {
            Some(s)
        }
    }
}

impl<S, F> Default for StyleProp<S, F> {
    /// The empty style.
    fn default() -> (p: Self)
        ensures
            p.source matches PropSource::Fixed(s) && s@.len() == 0,
    {
        StyleProp { source: PropSource::Fixed(String::new()), state: PhantomData }
    }
}

impl<'a, S, F> From<&'a str> for StyleProp<S, F> {
    /// A fixed style.
    fn from(s: &'a str) -> (p: Self)
        ensures
            p.source matches PropSource::Fixed(t) && t@ == s@,
    {
        StyleProp { source: PropSource::Fixed(String::from_str(s)), state: PhantomData }
    }
}

impl<'a, S, F> vstd::std_specs::convert::FromSpecImpl<&'a str> for StyleProp<S, F> {
    open spec fn obeys_from_spec() -> bool {
        false
    }

    open spec fn from_spec(v: &'a str) -> Self {
        arbitrary()
    }
}

impl<S, F> From<String> for StyleProp<S, F> {
    /// A fixed style.
    fn from(s: String) -> (p: Self)
        ensures
            p.source matches PropSource::Fixed(t) && t@ == s@,
    {
        StyleProp { source: PropSource::Fixed(s), state: PhantomData }
    }
}

impl<S, F> vstd::std_specs::convert::FromSpecImpl<String> for StyleProp<S, F> {
    open spec fn obeys_from_spec() -> bool {
        true
    }

    open spec fn from_spec(v: String) -> Self {
        StyleProp { source: PropSource::Fixed(v), state: PhantomData }
    }
}

impl<S, F: Fn(&S) -> String> From<F> for StyleProp<S, F> {
    /// A style computed from the state.
    fn from(f: F) -> (p: Self)
        ensures
            p.source == PropSource::Computed(f),
    {
        StyleProp { source: PropSource::Computed(f), state: PhantomData }
    }
}

impl<S, F: Fn(&S) -> String> vstd::std_specs::convert::FromSpecImpl<F> for StyleProp<S, F> {
    open spec fn obeys_from_spec() -> bool {
        true
    }

    open spec fn from_spec(v: F) -> Self {
        StyleProp { source: PropSource::Computed(v), state: PhantomData }
    }
}

/// Resolved attributes that a custom render function applies to the element
/// it returns.
#[derive(Clone, Debug)]
pub struct RenderProps {
    /// Resolved CSS class string.
    pub class: String,
    /// Resolved inline style string.
    pub style: String,
    /// Additional attributes to spread onto the element (`(name, value)`
    /// pairs), in the order they were added.
    pub attrs: Vec<(&'static str, String)>,
}

/// The attribute pairs of render props, as text.
pub open spec fn attrs_text(attrs: Seq<(&'static str, String)>) -> Seq<(Seq<char>, Seq<char>)> {
    attrs.map_values(|a: (&'static str, String)| (a.0@, a.1@))
}

impl RenderProps {
    /// Render props with the given class and style and no attributes.
    pub fn new(class: String, style: String) -> (p: Self)
        ensures
            p.class == class,
            p.style == style,
            p.attrs@.len() == 0,
    {
        RenderProps { class, style, attrs: Vec::new() }
    }

    /// Builder-style: add a single attribute after the existing ones.
    pub fn attr(self, name: &'static str, value: &str) -> (p: Self)
        ensures
            p.class == self.class,
            p.style == self.style,
            attrs_text(p.attrs@) == attrs_text(self.attrs@).push((name@, value@)),
    {
        let mut p = self;
        let ghost before = p.attrs@;
        p.attrs.push((name, String::from_str(value)));
        assert(attrs_text(p.attrs@) =~= attrs_text(before).push((name@, value@)));
        p
    }
}

impl Default for RenderProps {
    /// Empty class and style, no attributes.
    fn default() -> (p: Self)
        ensures
            p.class@.len() == 0,
            p.style@.len() == 0,
            p.attrs@.len() == 0,
    {
        RenderProps { class: String::new(), style: String::new(), attrs: Vec::new() }
    }
}

/// A custom render prop that replaces the default element entirely: when
/// present, the component delegates rendering to it.
pub struct RenderProp<S, F> {
    pub render: Option<F>,
    pub state: PhantomData<S>,
}

impl<S, F> RenderProp<S, F> {
    /// Returns `true` when a custom render function was provided.
    pub fn is_custom(&self) -> (r: bool)
        ensures
            r == self.render is Some,
    {
        self.render.is_some()
    }

    /// Call the render function. Returns `None` when using the default
    /// element.
    pub fn call<V>(&self, props: RenderProps, state: &S) -> (r: Option<V>) where
        F: Fn(RenderProps, &S) -> V,

        requires
            self.render matches Some(f) ==> f.requires((props, state)),
        ensures
            self.render is None ==> r is None,
            self.render matches Some(f) ==> r matches Some(v) && f.ensures((props, state), v),
    {
        match &self.render {
            Some(f) => Some(f(props, state)),
            None => None,
        }
    }
}

impl<S, F> Default for RenderProp<S, F> {
    /// No custom render function.
    fn default() -> (p: Self)
        ensures
            p.render is None,
    {
        RenderProp { render: None, state: PhantomData }
    }
}

impl<S, F> From<F> for RenderProp<S, F> {
    /// A custom render function.
    fn from(f: F) -> (p: Self)
        ensures
            p.render == Some(f),
    {
        RenderProp { render: Some(f), state: PhantomData }
    }
}

impl<S, F> vstd::std_specs::convert::FromSpecImpl<F> for RenderProp<S, F> {
    open spec fn obeys_from_spec() -> bool {
        true
    }

    open spec fn from_spec(v: F) -> Self {
        RenderProp { render: Some(v), state: PhantomData }
    }
}

} // verus!

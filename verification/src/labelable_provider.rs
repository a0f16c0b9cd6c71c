//! Label/control association: which element is the control, which is its
//! label, and which elements describe it (`aria-describedby`).

use vstd::prelude::*;

use crate::utils::merge_class_names::{opt_string, opt_text};
use crate::utils::text::join_ids;
use crate::context::provide_to_owner;
use crate::utils::use_id::{counted_id, use_id, IdCounter};

verus! {

/// The reactive signal in which a labelable context is shared between the
/// parts of a field (leptos' `RwSignal`); the library only hands it on.
#[verifier::external_type_specification]
#[verifier::external_body]
#[verifier::reject_recursive_types(T)]
#[verifier::reject_recursive_types(S)]
pub struct ExRwSignal<T, S>(leptos::prelude::RwSignal<T, S>);

/// The storage of thread-safe signals (leptos' `SyncStorage`), the default
/// storage of `RwSignal`.
#[verifier::external_type_specification]
#[verifier::external_body]
pub struct ExSyncStorage(leptos::prelude::SyncStorage);

/// Provides the labelable context, held in a signal so that every part
/// sees the others' registrations, to descendant components of the current
/// reactive owner.
pub fn provide_labelable(context: leptos::prelude::RwSignal<LabelableContext>) {
    provide_to_owner(context);
}

/// The associations of a labelable field: the control's id, the label's id
/// and the ids of the describing messages, in the order they were added.
pub struct LabelableView {
    pub control_id: Option<Seq<char>>,
    pub label_id: Option<Seq<char>>,
    pub message_ids: Seq<Seq<char>>,
}

/// The `aria-describedby` value: none without messages, else the message
/// ids joined by spaces.
pub open spec fn describedby(v: LabelableView) -> Option<Seq<char>> {
    if v.message_ids.len() == 0 {
        None
    } else {
        Some(join_ids(v.message_ids))
    }
}

/// `v` with the control id replaced.
pub open spec fn set_control(v: LabelableView, id: Option<Seq<char>>) -> LabelableView {
    LabelableView { control_id: id, ..v }
}

/// `v` with the label id replaced.
pub open spec fn set_label(v: LabelableView, id: Option<Seq<char>>) -> LabelableView {
    LabelableView { label_id: id, ..v }
}

/// `v` with `id` added after the existing message ids.
pub open spec fn add_message(v: LabelableView, id: Seq<char>) -> LabelableView {
    LabelableView { message_ids: v.message_ids.push(id), ..v }
}

/// The filter that keeps every message id other than `id`.
pub open spec fn other_than(id: Seq<char>) -> spec_fn(Seq<char>) -> bool {
    |m: Seq<char>| m != id
}

/// `v` with every occurrence of `id` removed from the message ids, the
/// others kept in order.
pub open spec fn remove_message(v: LabelableView, id: Seq<char>) -> LabelableView {
    LabelableView { message_ids: v.message_ids.filter(other_than(id)), ..v }
}

/// Context for associating labels with form controls.
#[derive(Clone)]
pub struct LabelableContext {
    control_id: Option<String>,
    label_id: Option<String>,
    message_ids: Vec<String>,
}

impl View for LabelableContext {
    type V = LabelableView;

    closed spec fn view(&self) -> LabelableView {
        LabelableView {
            control_id: opt_string(self.control_id),
            label_id: opt_string(self.label_id),
            message_ids: self.message_ids@.map_values(|m: String| m@),
        }
    }
}

/// A copy of an optional string.
fn copy_opt(s: &Option<String>) -> (r: Option<String>)
    ensures
        opt_string(r) == opt_string(*s),
{
    match s {
        Some(t) => Some(t.clone()),
        None => None,
    }
}

impl LabelableContext {
    /// A context with no associations.
    pub fn new() -> (ctx: Self)
        ensures
            ctx@.control_id is None,
            ctx@.label_id is None,
            ctx@.message_ids.len() == 0,
    {
        let ctx = LabelableContext { control_id: None, label_id: None, message_ids: Vec::new() };
        assert(ctx@.message_ids =~= Seq::<Seq<char>>::empty());
        ctx
    }

    /// A context whose control id is `id` and that has no other
    /// associations.
    pub fn with_control_id(id: &str) -> (ctx: Self)
        ensures
            ctx@.control_id == Some(id@),
            ctx@.label_id is None,
            ctx@.message_ids.len() == 0,
    {
        let ctx = LabelableContext {
            control_id: Some(String::from_str(id)),
            label_id: None,
            message_ids: Vec::new(),
        };
        assert(ctx@.message_ids =~= Seq::<Seq<char>>::empty());
        ctx
    }

    /// The current control id.
    pub fn control_id(&self) -> (r: Option<String>)
        ensures
            opt_string(r) == self@.control_id,
    {
        copy_opt(&self.control_id)
    }

    /// Register a control element's id.
    pub fn register_control_id(&mut self, id: &str)
        ensures
            final(self)@ == set_control(old(self)@, Some(id@)),
    {
        self.control_id = Some(String::from_str(id));
    }

    /// Unregister the control element's id.
    pub fn unregister_control_id(&mut self)
        ensures
            final(self)@ == set_control(old(self)@, None),
    {
        self.control_id = None;
    }

    /// The current label id.
    pub fn label_id(&self) -> (r: Option<String>)
        ensures
            opt_string(r) == self@.label_id,
    {
        copy_opt(&self.label_id)
    }

    /// Set the label element's id.
    pub fn set_label_id(&mut self, id: &str)
        ensures
            final(self)@ == set_label(old(self)@, Some(id@)),
    {
        self.label_id = Some(String::from_str(id));
    }

    /// Clear the label element's id.
    pub fn clear_label_id(&mut self)
        ensures
            final(self)@ == set_label(old(self)@, None),
    {
        self.label_id = None;
    }

    /// The current message ids for `aria-describedby`, in order.
    pub fn message_ids(&self) -> (r: Vec<String>)
        ensures
            r@.map_values(|m: String| m@) == self@.message_ids,
    {
        let mut r: Vec<String> = Vec::new();
        let mut i: usize = 0;
        while i < self.message_ids.len()
            invariant
                i <= self.message_ids@.len(),
                r@.len() == i,
                forall|k: int| 0 <= k < i ==> (#[trigger] r@[k])@ == self.message_ids@[k]@,
            decreases self.message_ids@.len() - i,
        {
            r.push(self.message_ids[i].clone());
            i = i + 1;
        }
        assert(r@.map_values(|m: String| m@) =~= self@.message_ids);
        r
    }

    /// The `aria-describedby` value: the message ids separated by single
    /// spaces, or `None` when there are no message ids.
    pub fn aria_describedby(&self) -> (r: Option<String>)
        ensures
            opt_string(r) == describedby(self@),
    {
        let ghost ids = self@.message_ids;
        if self.message_ids.len() == 0 {
            return None;
        }
        let mut s = self.message_ids[0].clone();
        assert(ids.take(1) =~= seq![ids[0]]);
        let mut i: usize = 1;
        while i < self.message_ids.len()
            invariant
                ids == self@.message_ids,
                1 <= i <= self.message_ids@.len(),
                ids.len() == self.message_ids@.len(),
                s@ == join_ids(ids.take(i as int)),
            decreases self.message_ids@.len() - i,
        {
            s.append(" ");
            s.append(self.message_ids[i].as_str());
            proof {
                reveal_strlit(" ");
                assert(ids.take(i + 1).drop_last() =~= ids.take(i as int));
                assert(ids[i as int] == self.message_ids@[i as int]@);
            }
            i = i + 1;
        }
        assert(ids.take(ids.len() as int) =~= ids);
        Some(s)
    }

    /// Add a message element's id for `aria-describedby`.
    pub fn add_message_id(&mut self, id: &str)
        ensures
            final(self)@ == add_message(old(self)@, id@),
    {
        self.message_ids.push(String::from_str(id));
        assert(self@.message_ids =~= old(self)@.message_ids.push(id@));
    }

    /// Remove every occurrence of a message element's id.
    pub fn remove_message_id(&mut self, id: &str)
        ensures
            final(self)@ == remove_message(old(self)@, id@),
    {
        let ghost old_ids = old(self)@.message_ids;
        let target = String::from_str(id);
        let mut kept: Vec<String> = Vec::new();
        let mut i: usize = 0;
        while i < self.message_ids.len()
            invariant
                old_ids == self@.message_ids,
                self.message_ids@.len() == old_ids.len(),
                i <= old_ids.len(),
                target@ == id@,
                kept@.map_values(|m: String| m@) == old_ids.take(i as int).filter(other_than(id@)),
            decreases old_ids.len() - i,
        {
            let ghost before = kept@.map_values(|m: String| m@);
            proof {
                reveal_with_fuel(Seq::<Seq<char>>::filter, 1);
                assert(old_ids.take(i + 1).drop_last() =~= old_ids.take(i as int));
                assert(old_ids[i as int] == self.message_ids@[i as int]@);
            }
            if !(self.message_ids[i] == target) {
                kept.push(self.message_ids[i].clone());
                assert(kept@.map_values(|m: String| m@) =~= before.push(old_ids[i as int]));
            } else {
                assert(kept@.map_values(|m: String| m@) =~= before);
            }
            i = i + 1;
        }
        assert(old_ids.take(old_ids.len() as int) =~= old_ids);
        self.message_ids = kept;
    }
}

impl Default for LabelableContext {
    /// A context with no associations.
    fn default() -> (ctx: Self)
        ensures
            ctx@.control_id is None,
            ctx@.label_id is None,
            ctx@.message_ids.len() == 0,
    {
        Self::new()
    }
}

/// The id of a labelable control: the override when given, else a fresh
/// `base-ui` id from `counter`. The id is registered as the control id of
/// `ctx` and returned.
pub fn use_labelable_id(
    ctx: &mut LabelableContext,
    counter: &mut IdCounter,
    id_override: Option<&str>,
) -> (id: String)
    requires
        id_override is Some || old(counter).count < u64::MAX,
    ensures
        match id_override {
            Some(o) => id@ == o@ && final(counter).count == old(counter).count,
            None => final(counter).count == old(counter).count + 1 && id@ == counted_id(
                "base-ui"@,
                final(counter).count as nat,
            ),
        },
        final(ctx)@ == set_control(old(ctx)@, Some(id@)),
{
    let id = use_id(counter, id_override, None);
    ctx.register_control_id(id.as_str());
    id
}

/// Removing a message id right after adding it leaves the same message ids
/// as removing it from the context before the addition.
pub proof fn lemma_remove_undoes_add(v: LabelableView, id: Seq<char>)
    ensures
        remove_message(add_message(v, id), id) == remove_message(v, id),
{
    let f = other_than(id);
    reveal_with_fuel(Seq::<Seq<char>>::filter, 1);
    assert(v.message_ids.push(id).drop_last() =~= v.message_ids);
    assert(v.message_ids.push(id).filter(f) =~= v.message_ids.filter(f));
}

/// After removing a message id it no longer occurs, every other message id
/// stays, and the control and label ids are untouched.
pub proof fn lemma_remove_message_exact(v: LabelableView, id: Seq<char>, other: Seq<char>)
    ensures
        !remove_message(v, id).message_ids.contains(id),
        other != id ==> (remove_message(v, id).message_ids.contains(other)
            <==> v.message_ids.contains(other)),
        remove_message(v, id).control_id == v.control_id,
        remove_message(v, id).label_id == v.label_id,
{
    let f = other_than(id);
    let r = v.message_ids.filter(f);
    if r.contains(id) {
        let j = choose|j: int| 0 <= j < r.len() && r[j] == id;
        v.message_ids.lemma_filter_pred(f, j);
    }
    if other != id {
        if v.message_ids.contains(other) {
            let k = choose|k: int| 0 <= k < v.message_ids.len() && v.message_ids[k] == other;
            v.message_ids.lemma_filter_contains(f, k);
        }
        if r.contains(other) {
            v.message_ids.lemma_filter_contains_rev(f, other);
        }
    }
}

/// A context describes its control exactly when it holds a message id; a
/// single message id is the whole `aria-describedby` value.
pub proof fn lemma_describedby_presence(v: LabelableView)
    ensures
        describedby(v) is None <==> v.message_ids.len() == 0,
        v.message_ids.len() == 1 ==> describedby(v) == Some(v.message_ids[0]),
{
}

/// Adding a message id appends it to `aria-describedby`, after a space when
/// other ids were already there.
pub proof fn lemma_add_extends_describedby(v: LabelableView, id: Seq<char>)
    ensures
        describedby(add_message(v, id)) == Some(
            match describedby(v) {
                None => id,
                Some(d) => d + seq![' '] + id,
            },
        ),
{
    let ids = v.message_ids.push(id);
    assert(ids.drop_last() =~= v.message_ids);
    assert(ids.last() == id);
    if v.message_ids.len() == 0 {
        assert(ids[0] == id);
    }
}

/// Registering a control id is read back by `control_id`; unregistering
/// reads back nothing; neither touches the label or the messages.
pub proof fn lemma_control_id_read_back(v: LabelableView, id: Seq<char>)
    ensures
        set_control(v, Some(id)).control_id == Some(id),
        set_control(v, None).control_id is None,
        set_control(v, Some(id)).label_id == v.label_id,
        set_control(v, Some(id)).message_ids == v.message_ids,
        describedby(set_control(v, Some(id))) == describedby(v),
{
}

/// Setting a label id is read back by `label_id`; clearing it reads back
/// nothing; neither touches the control or the messages.
pub proof fn lemma_label_id_read_back(v: LabelableView, id: Seq<char>)
    ensures
        set_label(v, Some(id)).label_id == Some(id),
        set_label(v, None).label_id is None,
        set_label(v, Some(id)).control_id == v.control_id,
        set_label(v, Some(id)).message_ids == v.message_ids,
{
}

} // verus!

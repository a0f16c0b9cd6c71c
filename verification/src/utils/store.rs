//! An observable data store: a state, listeners notified when it changes,
//! and observers notified when a value selected from it changes.

use vstd::prelude::*;

use vstd::std_specs::cmp::PartialEqSpec;

verus! {

/// A party notified of store changes.
pub trait StoreListener<State>: Sized {
    /// Whether this listener may be notified of `state`.
    spec fn accepts(&self, state: &State) -> bool;

    /// Whether `after` is this listener once it reacted to being notified of
    /// `state`: its callbacks were run on what `state` gives them, and its
    /// own state moved on accordingly.
    spec fn heard(&self, state: &State, after: Self) -> bool;

    /// Notifies the listener of the store's new state.
    fn notify(&mut self, state: &State)
        requires
            old(self).accepts(state),
        ensures
            old(self).heard(state, *final(self)),
            (forall|s: &State| old(self).accepts(s)) ==> (forall|s: &State| final(self).accepts(s)),
    ;
}

/// A listener that calls a function with the new state.
pub struct Subscriber<F> {
    pub callback: F,
}

impl<F> Subscriber<F> {
    /// A listener calling `callback`, which may be called with any state.
    pub fn new<State>(callback: F) -> (s: Self) where F: Fn(&State)
        requires
            forall|st: &State| callback.requires((st,)),
        ensures
            s.callback == callback,
            forall|st: &State| #[trigger] s.accepts(st),
    {
        Subscriber { callback }
    }
}

impl<State, F: Fn(&State)> StoreListener<State> for Subscriber<F> {
    open spec fn accepts(&self, state: &State) -> bool {
        self.callback.requires((state,))
    }

    /// The callback was called with the state; the subscriber is unchanged.
    open spec fn heard(&self, state: &State, after: Self) -> bool {
        after == *self && self.callback.ensures((state,), ())
    }

    fn notify(&mut self, state: &State) {
        (self.callback)(state);
    }
}

/// A listener that selects a value from each new state and calls its
/// listener with the new and previous value when the selected value changed.
pub struct Observer<V, Sel, Lis> {
    selector: Sel,
    listener: Lis,
    prev: V,
}

impl<V, Sel, Lis> Observer<V, Sel, Lis> {
    /// The selector.
    pub closed spec fn selector(&self) -> Sel {
        self.selector
    }

    /// The listener.
    pub closed spec fn listener(&self) -> Lis {
        self.listener
    }

    /// The value selected last, to which the next one is compared.
    pub closed spec fn previous(&self) -> V {
        self.prev
    }
}

impl<State, V: PartialEq, Sel: Fn(&State) -> V, Lis: Fn(&V, &V)> StoreListener<
    State,
> for Observer<V, Sel, Lis> {
    open spec fn accepts(&self, state: &State) -> bool {
        &&& self.selector().requires((state,))
        &&& forall|a: &V, b: &V| self.listener().requires((a, b))
    }

    /// The selector was called on the state, giving `v`. When `v` differs
    /// from the previous value `p`, the listener was called with `(v, p)`
    /// and `v` became the previous value; when it equals `p`, nothing else
    /// happened. (Whether `v` equals `p` is what `==` of `V` says, stated
    /// where that `==` has a specification.)
    open spec fn heard(&self, state: &State, after: Self) -> bool {
        exists|v: V|
            {
                &&& #[trigger] self.selector().ensures((state,), v)
                &&& after.selector() == self.selector()
                &&& after.listener() == self.listener()
                &&& (after.previous() == self.previous() && (V::obeys_eq_spec() ==> v.eq_spec(&self.previous())))
                    || (after.previous() == v && self.listener().ensures((&v, &self.previous()), ())
                        && (V::obeys_eq_spec() ==> !v.eq_spec(&self.previous())))
            }
    }

    fn notify(&mut self, state: &State) {
        let ghost before = *self;
        let new_value = (self.selector)(state);
        let ghost v = new_value;
        if new_value == self.prev {
            assert(self.selector().ensures((state,), v) && before.previous() == self.previous());
        } else {
            let mut old_value = new_value;
            std::mem::swap(&mut old_value, &mut self.prev);
            assert(self.listener() == before.listener());
            assert(before.listener().requires((&self.prev, &old_value)));
            (self.listener)(&self.prev, &old_value);
            assert(before.selector().ensures((state,), v) && self.previous() == v
                && before.listener().ensures((&v, &before.previous()), ()));
        }
        assert(self.selector() == before.selector() && self.listener() == before.listener());
        assert forall|s: &State| #[trigger] self.accepts(s) == before.accepts(s) by {}
    }
}

/// What an observer's having heard a state means: the selector gave `v`
/// for the state; when `v` differs from the previous value the listener
/// was called with `(v, previous)` and `v` became the previous value,
/// otherwise the observer is unchanged.
pub proof fn lemma_observer_heard<State, V: PartialEq, Sel: Fn(&State) -> V, Lis: Fn(&V, &V)>(
    o: Observer<V, Sel, Lis>,
    state: &State,
    after: Observer<V, Sel, Lis>,
)
    requires
        o.heard(state, after),
    ensures
        after.selector() == o.selector(),
        after.listener() == o.listener(),
        exists|v: V|
            {
                &&& #[trigger] o.selector().ensures((state,), v)
                &&& (after.previous() == o.previous() && (V::obeys_eq_spec() ==> v.eq_spec(&o.previous())))
                    || (after.previous() == v && o.listener().ensures((&v, &o.previous()), ())
                        && (V::obeys_eq_spec() ==> !v.eq_spec(&o.previous())))
            },
{
}

/// What a subscriber's having heard a state means: its callback was called
/// with the state, and the subscriber is unchanged.
pub proof fn lemma_subscriber_heard<State, F: Fn(&State)>(
    s: Subscriber<F>,
    state: &State,
    after: Subscriber<F>,
)
    requires
        s.heard(state, after),
    ensures
        after == s,
        s.callback.ensures((state,), ()),
{
}

/// The notifications of a state change: `(i, state)` for each listener
/// slot `i` that is still subscribed, in slot order.
pub open spec fn notifications<L, State>(slots: Seq<Option<L>>, state: State) -> Seq<(nat, State)>
    decreases slots.len(),
{
    if slots.len() == 0 {
        Seq::empty()
    } else {
        let rest = notifications(slots.drop_last(), state);
        if slots.last() is Some {
            rest.push(((slots.len() - 1) as nat, state))
        } else {
            rest
        }
    }
}

/// A new subscription is notified of a state change after all the listeners
/// subscribed before it.
pub proof fn lemma_subscriber_notified_last<L, State>(
    slots: Seq<Option<L>>,
    listener: L,
    state: State,
)
    ensures
        notifications(slots.push(Some(listener)), state) == notifications(slots, state).push(
            (slots.len() as nat, state),
        ),
{
    assert(slots.push(Some(listener)).drop_last() =~= slots);
}

/// A listener unsubscribed right after subscribing is not notified, and the
/// others are notified as before.
pub proof fn lemma_unsubscribed_not_notified<L, State>(
    slots: Seq<Option<L>>,
    listener: L,
    state: State,
)
    ensures
        notifications(slots.push(Some(listener)).update(slots.len() as int, None), state)
            == notifications(slots, state),
{
    let after = slots.push(Some(listener)).update(slots.len() as int, None);
    assert(after.drop_last() =~= slots);
}

/// Each listener slot of `before` became the one of `after` by hearing
/// `state`; an empty slot stays empty.
pub open spec fn slot_heard<State, L: StoreListener<State>>(
    before: Option<L>,
    after: Option<L>,
    state: State,
) -> bool {
    match before {
        Some(b) => (after matches Some(a) && b.heard(&state, a)),
        None => after is None,
    }
}

/// Every subscribed listener of `before` heard `state`, becoming the one at
/// the same place in `after`.
pub open spec fn all_heard<State, L: StoreListener<State>>(
    before: Seq<Option<L>>,
    after: Seq<Option<L>>,
    state: State,
) -> bool {
    &&& after.len() == before.len()
    &&& forall|i: int| 0 <= i < before.len() ==> #[trigger] slot_heard(before[i], after[i], state)
}

/// The notifications of a state change are exactly one for each subscribed
/// listener, in slot order, each of that state; an empty slot gets none.
pub proof fn lemma_notifications_exact<L, State>(slots: Seq<Option<L>>, state: State)
    ensures
        forall|k: int|
            0 <= k < notifications(slots, state).len() ==> {
                let (i, s) = #[trigger] notifications(slots, state)[k];
                &&& i < slots.len()
                &&& slots[i as int] is Some
                &&& s == state
            },
        forall|k1: int, k2: int|
            0 <= k1 < k2 < notifications(slots, state).len() ==> #[trigger] notifications(
                slots,
                state,
            )[k1].0 < #[trigger] notifications(slots, state)[k2].0,
        forall|i: int|
            0 <= i < slots.len() && slots[i] is Some ==> exists|k: int|
                0 <= k < notifications(slots, state).len() && #[trigger] notifications(
                    slots,
                    state,
                )[k].0 == i,
    decreases slots.len(),
{
    if slots.len() > 0 {
        let prefix = slots.drop_last();
        lemma_notifications_exact(prefix, state);
        let n = notifications(slots, state);
        let m = notifications(prefix, state);
        assert forall|k: int| 0 <= k < m.len() implies m[k].0 < prefix.len() by {
            let (i, s) = m[k];
        }
        assert forall|i: int| 0 <= i < slots.len() && slots[i] is Some implies exists|k: int|
            0 <= k < n.len() && #[trigger] n[k].0 == i by {
            if i < prefix.len() {
                assert(prefix[i] == slots[i]);
                let k = choose|k: int| 0 <= k < m.len() && #[trigger] m[k].0 == i;
                assert(n[k] == m[k]);
            } else {
                assert(n[n.len() - 1].0 == i);
            }
        }
        assert forall|k1: int, k2: int| 0 <= k1 < k2 < n.len() implies #[trigger] n[k1].0
            < #[trigger] n[k2].0 by {
            if k2 < m.len() {
                assert(n[k1] == m[k1] && n[k2] == m[k2]);
            } else {
                assert(n[k1] == m[k1]);
                assert(m[k1].0 < prefix.len());
            }
        }
        assert forall|k: int| 0 <= k < n.len() implies ({
            let (i, s) = #[trigger] n[k];
            &&& i < slots.len()
            &&& slots[i as int] is Some
            &&& s == state
        }) by {
            if k < m.len() {
                assert(n[k] == m[k]);
                assert(prefix[m[k].0 as int] == slots[m[k].0 as int]);
            }
        }
    }
}

/// A data store with an observer pattern for state change notifications.
///
/// Listener `i` is the `i`-th subscription; an unsubscribed listener leaves
/// an empty slot, so ids stay stable. The store keeps a record of the
/// notifications it made: which listener slot was notified of which state,
/// in order.
pub struct Store<State, L> {
    state: State,
    listeners: Vec<Option<L>>,
    update_tick: u64,
    notified: Ghost<Seq<(nat, State)>>,
}

impl<State, L: StoreListener<State>> Store<State, L> {
    /// The current state.
    pub closed spec fn current(&self) -> State {
        self.state
    }

    /// The listener slots.
    pub closed spec fn slots(&self) -> Seq<Option<L>> {
        self.listeners@
    }

    /// The number of state updates so far.
    pub closed spec fn tick(&self) -> nat {
        self.update_tick as nat
    }

    /// The notifications made so far, in order: the listener slot notified
    /// and the state it was notified of.
    pub closed spec fn log(&self) -> Seq<(nat, State)> {
        self.notified@
    }

    /// Every listener accepts every state.
    pub closed spec fn wf(&self) -> bool {
        forall|i: int, s: &State|
            #![trigger self.listeners@[i]->0.accepts(s)]
            0 <= i < self.listeners@.len() && self.listeners@[i] is Some
                ==> self.listeners@[i]->0.accepts(s)
    }

    /// Create a new store with the given initial state.
    pub fn new(initial_state: State) -> (s: Self)
        ensures
            s.wf(),
            s.current() == initial_state,
            s.slots().len() == 0,
            s.tick() == 0,
            s.log().len() == 0,
    {
        Store {
            state: initial_state,
            listeners: Vec::new(),
            update_tick: 0,
            notified: Ghost(Seq::empty()),
        }
    }

    /// Get a clone of the current state.
    pub fn get_state(&self) -> (r: State) where State: Clone
        ensures
            cloned(self.current(), r),
    {
        self.state.clone()
    }

    /// Call `f` with a reference to the current state and return its result.
    pub fn with_state<R, F: FnOnce(&State) -> R>(&self, f: F) -> (r: R)
        requires
            f.requires((&self.current(),)),
        ensures
            f.ensures((&self.current(),), r),
    {
        f(&self.state)
    }

    /// Subscribe to state changes. Returns the subscription's id, which
    /// `unsubscribe` takes.
    pub fn subscribe(&mut self, listener: L) -> (id: usize)
        requires
            old(self).wf(),
            forall|s: &State| listener.accepts(s),
        ensures
            final(self).wf(),
            id == old(self).slots().len(),
            final(self).slots() == old(self).slots().push(Some(listener)),
            final(self).current() == old(self).current(),
            final(self).tick() == old(self).tick(),
            final(self).log() == old(self).log(),
    {
        let id = self.listeners.len();
        self.listeners.push(Some(listener));
        id
    }

    /// Cancel the subscription with id `id`; other ids are ignored.
    pub fn unsubscribe(&mut self, id: usize)
        requires
            old(self).wf(),
        ensures
            final(self).wf(),
            id < old(self).slots().len() ==> final(self).slots() == old(self).slots().update(
                id as int,
                None,
            ),
            id >= old(self).slots().len() ==> final(self).slots() == old(self).slots(),
            final(self).current() == old(self).current(),
            final(self).tick() == old(self).tick(),
            final(self).log() == old(self).log(),
    {
        if id < self.listeners.len() {
            self.listeners.set(id, None);
        }
    }

    /// Notifies every subscribed listener of the current state, in
    /// subscription order.
    fn notify_listeners(&mut self)
        requires
            old(self).wf(),
        ensures
            final(self).wf(),
            final(self).current() == old(self).current(),
            final(self).tick() == old(self).tick(),
            final(self).log() == old(self).log() + notifications(old(self).slots(), old(self).current()),
            all_heard(old(self).slots(), final(self).slots(), old(self).current()),
    {
        let ghost slots = self.listeners@;
        let ghost start = self.notified@;
        let n = self.listeners.len();
        let mut i: usize = 0;
        while i < n
            invariant
                self.wf(),
                n == slots.len(),
                self.listeners@.len() == n,
                self.state == old(self).state,
                self.update_tick == old(self).update_tick,
                i <= n,
                forall|j: int| i <= j < n ==> self.listeners@[j] == slots[j],
                forall|j: int| 0 <= j < i ==> #[trigger] slot_heard(slots[j], self.listeners@[j], self.state),
                self.notified@ == start + notifications(slots.take(i as int), self.state),
            decreases n - i,
        {
            proof {
                assert(slots.take(i + 1).drop_last() =~= slots.take(i as int));
                assert(slots.take(i + 1).last() == slots[i as int]);
            }
            let ghost current = self.listeners@;
            let slot = self.listeners.remove(i);
            assert(slot == slots[i as int]);
            match slot {
                Some(mut l) => {
                    assert(current[i as int] is Some);
                    assert(forall|s: &State| #[trigger] l.accepts(s)) by {
                        assert forall|s: &State| #[trigger] l.accepts(s) by {
                            assert(current[i as int]->0.accepts(s));
                        }
                    }
                    let ghost before = l;
                    l.notify(&self.state);
                    self.listeners.insert(i, Some(l));
                    assert(self.listeners@ =~= current.update(i as int, Some(l)));
                    assert(slot_heard(slots[i as int], self.listeners@[i as int], self.state));
                    self.notified = Ghost(self.notified@.push((i as nat, self.state)));
                    assert(self.notified@ =~= start + notifications(slots.take(i + 1), self.state));
                },
                None => {
                    self.listeners.insert(i, None);
                    assert(self.listeners@ =~= current);
                    assert(self.notified@ =~= start + notifications(slots.take(i + 1), self.state));
                },
            }
            i = i + 1;
        }
        assert(slots.take(n as int) =~= slots);
    }

    /// Replace the entire state and notify listeners; no-op if the new state
    /// equals the current state.
    pub fn set_state(&mut self, new_state: State) where State: PartialEq
        requires
            old(self).wf(),
            old(self).tick() < u64::MAX,
        ensures
            final(self).wf(),
            (final(self).current() == old(self).current() && final(self).tick() == old(self).tick()
                && final(self).log() == old(self).log() && final(self).slots() == old(self).slots())
                || (final(self).current() == new_state && final(self).tick() == old(self).tick() + 1
                    && final(self).log() == old(self).log() + notifications(old(self).slots(), new_state)
                    && all_heard(old(self).slots(), final(self).slots(), new_state)),
            State::obeys_eq_spec() ==> (old(self).current().eq_spec(&new_state) <==> final(self).tick() == old(self).tick()),
    {
        if self.state == new_state {
            return;
        }
        self.state = new_state;
        self.update_tick = self.update_tick + 1;
        self.notify_listeners();
    }

    /// Notify all listeners unconditionally, with a fresh copy of the state.
    pub fn notify_all(&mut self) where State: Clone
        requires
            old(self).wf(),
            old(self).tick() < u64::MAX,
        ensures
            final(self).wf(),
            cloned(old(self).current(), final(self).current()),
            final(self).tick() == old(self).tick() + 1,
            final(self).log() == old(self).log() + notifications(old(self).slots(), final(self).current()),
            all_heard(old(self).slots(), final(self).slots(), final(self).current()),
    {
        let new_state = self.state.clone();
        self.update_tick = self.update_tick + 1;
        self.state = new_state;
        self.notify_listeners();
    }

    /// Merge partial changes into the current state: `apply` edits a copy
    /// of the state, which then replaces it as `set_state` does.
    pub fn update_fields<F: FnOnce(State) -> State>(&mut self, apply: F) where
        State: Clone + PartialEq + UpdateFields,

        requires
            old(self).wf(),
            old(self).tick() < u64::MAX,
            forall|s: State| apply.requires((s,)),
        ensures
            final(self).wf(),
            exists|copy: State, updated: State|
                {
                    &&& cloned(old(self).current(), copy)
                    &&& apply.ensures((copy,), updated)
                    &&& (final(self).current() == old(self).current() && final(self).tick() == old(self).tick()
                        && final(self).log() == old(self).log() && final(self).slots() == old(self).slots())
                        || (final(self).current() == updated && final(self).tick() == old(self).tick() + 1
                            && final(self).log() == old(self).log() + notifications(old(self).slots(), updated)
                            && all_heard(old(self).slots(), final(self).slots(), updated))
                    &&& State::obeys_eq_spec() ==> (old(self).current().eq_spec(&updated)
                        <==> final(self).tick() == old(self).tick())
                },
    {
        let copy = self.state.clone();
        let ghost copy_view = copy;
        let new_state = apply(copy);
        let ghost updated = new_state;
        self.set_state(new_state);
        assert(cloned(old(self).current(), copy_view) && apply.ensures((copy_view,), updated));
    }
}

impl<State, V: PartialEq, Sel: Fn(&State) -> V, Lis: Fn(&V, &V)> Store<
    State,
    Observer<V, Sel, Lis>,
> {
    /// Observe a value selected from the store: `listener` is called at once
    /// with the current value (as both new and previous value), then with the
    /// new and previous value each time a state change changes the selected
    /// value. Returns the subscription's id.
    pub fn observe(&mut self, selector: Sel, listener: Lis) -> (id: usize)
        requires
            old(self).wf(),
            forall|s: &State| selector.requires((s,)),
            forall|a: &V, b: &V| listener.requires((a, b)),
        ensures
            final(self).wf(),
            id == old(self).slots().len(),
            final(self).slots().len() == old(self).slots().len() + 1,
            final(self).slots().drop_last() == old(self).slots(),
            final(self).slots().last() matches Some(o) && o.selector() == selector
                && o.listener() == listener
                && selector.ensures((&old(self).current(),), o.previous())
                && listener.ensures((&o.previous(), &o.previous()), ()),
            final(self).current() == old(self).current(),
            final(self).tick() == old(self).tick(),
            final(self).log() == old(self).log(),
    {
        let value = selector(&self.state);
        listener(&value, &value);
        let observer = Observer { selector, listener, prev: value };
        let id = self.subscribe(observer);
        assert(self.slots().drop_last() =~= old(self).slots());
        id
    }
}

/// Marker for state types that support partial field updates through
/// `Store::update_fields`.
pub trait UpdateFields {

}

/// A selector composed of an extractor and a combiner.
pub struct Selector<E, C> {
    pub extractor: E,
    pub combiner: C,
}

impl<E, C> Selector<E, C> {
    /// Applies the extractor to `state` and the combiner to its result.
    pub fn select<State, I, O>(&self, state: &State) -> (r: O) where
        E: Fn(&State) -> I,
        C: Fn(I) -> O,

        requires
            self.extractor.requires((state,)),
            forall|i: I| self.combiner.requires((i,)),
        ensures
            exists|i: I| self.extractor.ensures((state,), i) && self.combiner.ensures((i,), r),
    {
        let i = (self.extractor)(state);
        (self.combiner)(i)
    }
}

/// Create a composed selector: `extractor` selects a value from the state
/// and `combiner` transforms it.
pub fn create_selector<E, C>(extractor: E, combiner: C) -> (s: Selector<E, C>)
    ensures
        s.extractor == extractor,
        s.combiner == combiner,
{
    Selector { extractor, combiner }
}

} // verus!

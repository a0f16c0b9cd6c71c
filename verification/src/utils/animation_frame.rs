//! Animation frame scheduling: a batched scheduler that coalesces callbacks
//! into a single frame request, and a handle that keeps at most one of its
//! own callbacks pending.

use vstd::prelude::*;

verus! {

/// The callbacks still pending in a batch, in request order.
pub open spec fn live<C>(slots: Seq<Option<C>>) -> Seq<C>
    decreases slots.len(),
{
    if slots.len() == 0 {
        Seq::empty()
    } else {
        let rest = live(slots.drop_last());
        match slots.last() {
            Some(c) => rest.push(c),
            None => rest,
        }
    }
}

/// A batched animation frame scheduler.
///
/// Callbacks requested before the next frame are run together, in request
/// order, by one frame; a cancelled callback is skipped. Callback `i` of the
/// current batch has id `start_id + i`.
pub struct Scheduler<C> {
    callbacks: Vec<Option<C>>,
    callbacks_count: usize,
    next_id: u32,
    start_id: u32,
    is_scheduled: bool,
}

impl<C> Scheduler<C> {
    /// The callback slots of the current batch.
    pub closed spec fn slots(&self) -> Seq<Option<C>> {
        self.callbacks@
    }

    /// The id of the first slot of the current batch.
    pub closed spec fn first_id(&self) -> nat {
        self.start_id as nat
    }

    /// The id the next request will get.
    pub closed spec fn upcoming_id(&self) -> nat {
        self.next_id as nat
    }

    /// Whether a frame has been requested for the current batch.
    pub closed spec fn frame_requested(&self) -> bool {
        self.is_scheduled
    }

    /// The number of callbacks pending in the current batch.
    pub closed spec fn pending_count(&self) -> nat {
        self.callbacks_count as nat
    }

    /// Ids run consecutively over the batch and the count matches the
    /// pending callbacks.
    pub closed spec fn wf(&self) -> bool {
        &&& self.start_id as nat + self.callbacks@.len() == self.next_id as nat
        &&& self.callbacks_count as nat == live(self.callbacks@).len()
    }

    /// A scheduler with nothing pending; ids start at 1.
    pub fn new() -> (s: Self)
        ensures
            s.wf(),
            s.slots().len() == 0,
            s.first_id() == 1,
            s.upcoming_id() == 1,
            !s.frame_requested(),
    {
        Scheduler {
            callbacks: Vec::new(),
            callbacks_count: 0,
            next_id: 1,
            start_id: 1,
            is_scheduled: false,
        }
    }

    /// The id the next request will get.
    pub fn next_request_id(&self) -> (id: u32)
        ensures
            id == self.upcoming_id(),
    {
        self.next_id
    }

    /// Adds `f` to the current batch and returns its id, with whether the
    /// caller must now request an animation frame (no frame was requested
    /// for this batch yet).
    pub fn request(&mut self, f: C) -> (r: (u32, bool))
        requires
            old(self).wf(),
            old(self).upcoming_id() < u32::MAX,
        ensures
            final(self).wf(),
            r.0 == old(self).upcoming_id(),
            r.1 == !old(self).frame_requested(),
            final(self).slots() == old(self).slots().push(Some(f)),
            final(self).first_id() == old(self).first_id(),
            final(self).upcoming_id() == old(self).upcoming_id() + 1,
            final(self).frame_requested(),
    {
        let id = self.next_id;
        self.next_id = id + 1;
        let ghost old_slots = self.callbacks@;
        self.callbacks.push(Some(f));
        assert(self.callbacks@.drop_last() =~= old_slots);
        proof {
            lemma_live_len(old_slots);
        }
        self.callbacks_count = self.callbacks_count + 1;
        let must_request = !self.is_scheduled;
        self.is_scheduled = true;
        (id, must_request)
    }

    /// Cancels the callback with id `id` if it is pending in the current
    /// batch; other ids are ignored.
    pub fn cancel(&mut self, id: u32)
        requires
            old(self).wf(),
        ensures
            final(self).wf(),
            final(self).first_id() == old(self).first_id(),
            final(self).upcoming_id() == old(self).upcoming_id(),
            final(self).frame_requested() == old(self).frame_requested(),
            final(self).slots() == cancelled_slots(old(self).slots(), old(self).first_id(), id as nat),
    {
        let start = self.start_id;
        if id < start {
            return;
        }
        let index = (id - start) as usize;
        if index >= self.callbacks.len() {
            return;
        }
        if self.callbacks[index].is_some() {
            let ghost before = self.callbacks@;
            proof {
                lemma_live_update_none(before, index as int);
            }
            self.callbacks.set(index, None);
            if self.callbacks_count > 0 {
                self.callbacks_count = self.callbacks_count - 1;
            }
        } else {
            assert(self.callbacks@.update(index as int, None) =~= self.callbacks@);
        }
    }

    /// Runs the frame: the batch ends, ids continue from where requests
    /// left off, and the pending callbacks are returned in request order for
    /// the caller to run with the frame's timestamp.
    pub fn tick(&mut self) -> (run: Vec<C>)
        requires
            old(self).wf(),
        ensures
            final(self).wf(),
            run@ == live(old(self).slots()),
            final(self).slots().len() == 0,
            final(self).first_id() == old(self).upcoming_id(),
            final(self).upcoming_id() == old(self).upcoming_id(),
            !final(self).frame_requested(),
    {
        self.is_scheduled = false;
        let mut current: Vec<Option<C>> = Vec::new();
        std::mem::swap(&mut current, &mut self.callbacks);
        let current_count = self.callbacks_count;
        self.callbacks_count = 0;
        self.start_id = self.next_id;
        assert(self.callbacks@ =~= Seq::<Option<C>>::empty());
        let ghost slots = current@;
        let mut run: Vec<C> = Vec::new();
        if current_count > 0 {
            let ghost mut i: int = 0;
            assert(slots.take(0) =~= Seq::<Option<C>>::empty());
            assert(slots.skip(0) =~= slots);
            while current.len() > 0
                invariant
                    0 <= i <= slots.len(),
                    current@ == slots.skip(i),
                    run@ == live(slots.take(i)),
                decreases current@.len(),
            {
                let slot = current.remove(0);
                proof {
                    assert(slot == slots[i]);
                    assert(slots.take(i + 1).drop_last() =~= slots.take(i));
                    assert(slots.take(i + 1).last() == slots[i]);
                    assert(current@ =~= slots.skip(i + 1));
                }
                match slot {
                    Some(f) => {
                        run.push(f);
                    },
                    None => {},
                }
                proof {
                    i = i + 1;
                }
            }
            assert(slots.take(i) =~= slots);
        } else {
            proof {
                lemma_live_empty_when_none_pending(slots);
            }
        }
        run
    }
}

/// There are no more live callbacks than slots.
proof fn lemma_live_len<C>(slots: Seq<Option<C>>)
    ensures
        live(slots).len() <= slots.len(),
    decreases slots.len(),
{
    if slots.len() > 0 {
        lemma_live_len(slots.drop_last());
    }
}

/// With no pending callback, nothing is live.
proof fn lemma_live_empty_when_none_pending<C>(slots: Seq<Option<C>>)
    requires
        live(slots).len() == 0,
    ensures
        live(slots) == Seq::<C>::empty(),
{
    assert(live(slots) =~= Seq::<C>::empty());
}

/// The slots after cancelling `id`: its slot emptied when the id belongs to
/// the current batch, unchanged otherwise.
pub open spec fn cancelled_slots<C>(slots: Seq<Option<C>>, first: nat, id: nat) -> Seq<
    Option<C>,
> {
    if first <= id < first + slots.len() {
        slots.update(id - first, None)
    } else {
        slots
    }
}

/// The callbacks pending in two consecutive runs of slots are those of the
/// first run followed by those of the second.
pub proof fn lemma_live_concat<C>(a: Seq<Option<C>>, b: Seq<Option<C>>)
    ensures
        live(a + b) == live(a) + live(b),
    decreases b.len(),
{
    if b.len() == 0 {
        assert(a + b =~= a);
        assert(live(a) + live(b) =~= live(a));
    } else {
        assert((a + b).drop_last() =~= a + b.drop_last());
        assert((a + b).last() == b.last());
        lemma_live_concat(a, b.drop_last());
        match b.last() {
            Some(c) => {
                assert(live(a) + live(b.drop_last()).push(c) =~= (live(a) + live(b.drop_last())).push(c));
            },
            None => {},
        }
    }
}

/// Cancelling the id of a callback still pending in the current batch, at
/// any position in the batch, removes exactly that callback from those the
/// next frame runs: the callbacks before it and after it stay, in order.
pub proof fn lemma_cancel_removes_exactly<C>(slots: Seq<Option<C>>, first: nat, id: nat)
    requires
        first <= id < first + slots.len(),
        slots[id - first] is Some,
    ensures
        live(slots) == live(slots.take(id - first)) + seq![slots[id - first]->0] + live(
            slots.skip(id - first + 1),
        ),
        live(cancelled_slots(slots, first, id)) == live(slots.take(id - first)) + live(
            slots.skip(id - first + 1),
        ),
{
    let k = id - first;
    let before = slots.take(k);
    let after = slots.skip(k + 1);
    let one: Seq<Option<C>> = seq![slots[k]];
    let none: Seq<Option<C>> = seq![None];
    assert(slots =~= before + one + after);
    assert(cancelled_slots(slots, first, id) =~= before + none + after);
    lemma_live_concat(before + one, after);
    lemma_live_concat(before, one);
    lemma_live_concat(before + none, after);
    lemma_live_concat(before, none);
    assert(one.drop_last() =~= Seq::<Option<C>>::empty());
    assert(none.drop_last() =~= Seq::<Option<C>>::empty());
    assert(live(Seq::<Option<C>>::empty()) =~= Seq::<C>::empty());
    assert(one.last() == slots[k]);
    assert(live(one) =~= seq![slots[k]->0]);
    assert(live(none) =~= Seq::<C>::empty());
    assert(live(before) + live(none) =~= live(before));
}

/// Cancelling a callback right after requesting it, by the id the request
/// returned, leaves the callbacks the next frame runs as they were before the
/// request.
pub proof fn lemma_cancel_undoes_request<C>(slots: Seq<Option<C>>, first: nat, f: C)
    ensures
        live(cancelled_slots(slots.push(Some(f)), first, first + slots.len())) == live(slots),
{
    let pushed = slots.push(Some(f));
    let after = cancelled_slots(pushed, first, first + slots.len());
    assert(after =~= slots.push(None));
    assert(after.drop_last() =~= slots);
}

/// Cancelling an id that is not pending in the current batch (before its
/// first id, past its last, or already cancelled) changes nothing the next
/// frame runs.
pub proof fn lemma_cancel_other_id_harmless<C>(slots: Seq<Option<C>>, first: nat, id: nat)
    requires
        !(first <= id < first + slots.len()) || slots[id - first] is None,
    ensures
        live(cancelled_slots(slots, first, id)) == live(slots),
{
    if first <= id < first + slots.len() {
        assert(cancelled_slots(slots, first, id) =~= slots);
    }
}

/// The next frame runs the callbacks of a batch in the order they were
/// requested: a new request runs after all the callbacks pending before it.
pub proof fn lemma_request_runs_last<C>(slots: Seq<Option<C>>, f: C)
    ensures
        live(slots.push(Some(f))) == live(slots).push(f),
{
    assert(slots.push(Some(f)).drop_last() =~= slots);
}

/// A handle that keeps at most one of its callbacks pending on a scheduler:
/// requesting a new frame cancels the callback it requested before.
#[derive(Clone, Copy, Debug, PartialEq, Eq, Structural)]
pub struct AnimationFrame {
    current: Option<u32>,
}

impl AnimationFrame {
    /// The id of this handle's pending callback, if any.
    pub closed spec fn pending(&self) -> Option<u32> {
        self.current
    }

    /// A handle with no scheduled callback.
    pub fn new() -> (a: Self)
        ensures
            a.pending() is None,
    {
        AnimationFrame { current: None }
    }

    /// Schedules `f` on `sched` for the next frame, cancelling this handle's
    /// previous callback first. Returns whether the caller must request an
    /// animation frame.
    pub fn request<C>(&mut self, sched: &mut Scheduler<C>, f: C) -> (must_request: bool)
        requires
            old(sched).wf(),
            old(sched).upcoming_id() < u32::MAX,
        ensures
            final(sched).wf(),
            final(self).pending() == Some(old(sched).upcoming_id() as u32),
            final(sched).slots() == match old(self).pending() {
                Some(id) => cancelled_slots(old(sched).slots(), old(sched).first_id(), id as nat),
                None => old(sched).slots(),
            }.push(Some(f)),
            final(sched).first_id() == old(sched).first_id(),
            final(sched).upcoming_id() == old(sched).upcoming_id() + 1,
            must_request == !old(sched).frame_requested(),
    {
        self.cancel(sched);
        let (id, must_request) = sched.request(f);
        self.current = Some(id);
        must_request
    }

    /// Cancels this handle's pending callback, if any.
    pub fn cancel<C>(&mut self, sched: &mut Scheduler<C>)
        requires
            old(sched).wf(),
        ensures
            final(sched).wf(),
            final(self).pending() is None,
            final(sched).slots() == match old(self).pending() {
                Some(id) => cancelled_slots(old(sched).slots(), old(sched).first_id(), id as nat),
                None => old(sched).slots(),
            },
            final(sched).first_id() == old(sched).first_id(),
            final(sched).upcoming_id() == old(sched).upcoming_id(),
            final(sched).frame_requested() == old(sched).frame_requested(),
    {
        match self.current {
            Some(id) => {
                self.current = None;
                sched.cancel(id);
            },
            None => {},
        }
    }

    /// This handle's callback ran: nothing is pending any more.
    pub fn frame_ran(&mut self)
        ensures
            final(self).pending() is None,
    {
        self.current = None;
    }

    /// Returns `true` if a callback of this handle is scheduled.
    pub fn is_scheduled(&self) -> (r: bool)
        ensures
            r == self.pending() is Some,
    {
        self.current.is_some()
    }

    /// Requests a callback on the shared scheduler, outside any handle.
    /// Returns its id and whether the caller must request an animation frame.
    pub fn request_static<C>(sched: &mut Scheduler<C>, f: C) -> (r: (u32, bool))
        requires
            old(sched).wf(),
            old(sched).upcoming_id() < u32::MAX,
        ensures
            final(sched).wf(),
            r.0 == old(sched).upcoming_id(),
            r.1 == !old(sched).frame_requested(),
            final(sched).slots() == old(sched).slots().push(Some(f)),
            final(sched).first_id() == old(sched).first_id(),
            final(sched).upcoming_id() == old(sched).upcoming_id() + 1,
    {
        sched.request(f)
    }

    /// Cancels a callback on the shared scheduler by id.
    pub fn cancel_static<C>(sched: &mut Scheduler<C>, id: u32)
        requires
            old(sched).wf(),
        ensures
            final(sched).wf(),
            final(sched).slots() == cancelled_slots(
                old(sched).slots(),
                old(sched).first_id(),
                id as nat,
            ),
            final(sched).first_id() == old(sched).first_id(),
            final(sched).upcoming_id() == old(sched).upcoming_id(),
    {
        sched.cancel(id);
    }
}

impl Default for AnimationFrame {
    /// A handle with no scheduled callback.
    fn default() -> (a: Self)
        ensures
            a.pending() is None,
    {
        Self::new()
    }
}

/// Removing a pending callback from the slots drops exactly one from the
/// live callbacks.
proof fn lemma_live_update_none<C>(slots: Seq<Option<C>>, i: int)
    requires
        0 <= i < slots.len(),
        slots[i] is Some,
    ensures
        live(slots.update(i, None)).len() + 1 == live(slots).len(),
    decreases slots.len(),
{
    let u = slots.update(i, None);
    if i == slots.len() - 1 {
        assert(u.drop_last() =~= slots.drop_last());
    } else {
        assert(u.drop_last() =~= slots.drop_last().update(i, None));
        lemma_live_update_none(slots.drop_last(), i);
    }
}

} // verus!

//! Running a callback once, when a component is first mounted, with an
//! optional cleanup for when it is unmounted.

use vstd::prelude::*;

verus! {

/// What a mount callback hands back: nothing, or maybe a cleanup to run
/// when the component is unmounted.
pub trait MountOutcome {
    /// Arranges for the cleanup, if there is one, to run when the current
    /// reactive owner is cleaned up.
    fn schedule_cleanup(self);
}

impl MountOutcome for () {
    /// No cleanup.
    fn schedule_cleanup(self) {
    }
}

impl<C: FnOnce() + Send + Sync + 'static> MountOutcome for Option<C> {
    /// The cleanup, when present, runs on unmount.
    fn schedule_cleanup(self) {
        match self {
            Some(cleanup) => run_on_cleanup(cleanup),
            None => {},
        }
    }
}

/// Registers `cleanup` with the current reactive owner by calling
/// `leptos::prelude::on_cleanup`; the owner runs it when it is cleaned up
/// (when the effect that registered it re-runs or is disposed, that is on
/// unmount for an effect that runs once). Without a current owner the
/// outside function drops it. Nothing is promised: the effect lives in the
/// reactive runtime.
#[verifier::external_body]
fn run_on_cleanup<C: FnOnce() + Send + Sync + 'static>(cleanup: C) {
    leptos::prelude::on_cleanup(cleanup);
}

/// A callback that runs the first time it is fired and never again.
pub struct MountOnce<F> {
    callback: Option<F>,
}

impl<R: MountOutcome, F: FnOnce() -> R> MountOnce<F> {
    /// The callback that has not run yet, if any.
    pub closed spec fn pending(&self) -> Option<F> {
        self.callback
    }

    /// The pending callback, if any, may be called.
    pub closed spec fn wf(&self) -> bool {
        self.callback matches Some(f) ==> call_requires(f, ())
    }

    /// Holds `f` until the first firing.
    pub fn new(f: F) -> (m: Self)
        requires
            call_requires(f, ()),
        ensures
            m.wf(),
            m.pending() == Some(f),
    {
        MountOnce { callback: Some(f) }
    }

    /// Runs the callback if it has not run yet, and schedules the cleanup it
    /// hands back; later firings do nothing. Returns whether the callback
    /// ran.
    pub fn fire(&mut self) -> (ran: bool)
        requires
            old(self).wf(),
        ensures
            final(self).wf(),
            final(self).pending() is None,
            ran == old(self).pending() is Some,
    {
        let mut taken: Option<F> = None;
        std::mem::swap(&mut taken, &mut self.callback);
        match taken {
            Some(f) => {
                let outcome = f();
                outcome.schedule_cleanup();
                true
            },
            None => false,
        }
    }
}

/// Creates a reactive effect with `leptos::prelude::Effect::new` whose
/// function fires `once` each time the effect runs. Nothing is promised of
/// when, or whether, the reactive runtime runs the effect.
#[verifier::external_body]
fn fire_on_each_effect_run<R: MountOutcome, F: FnOnce() -> R + Send + Sync + 'static>(
    once: MountOnce<F>,
)
    requires
        once.wf(),
{
    let mut once = once;
    leptos::prelude::Effect::new(move || {
        once.fire();
    });
}

/// Run `f` once, when the current component's first effect run happens
/// after it is mounted. `f` may hand back a cleanup (`Some(cleanup)`),
/// which runs when the component is unmounted.
pub fn use_on_mount<R: MountOutcome, F: FnOnce() -> R + Send + Sync + 'static>(f: F)
    requires
        call_requires(f, ()),
{
    let once = MountOnce::new(f);
    fire_on_each_effect_run(once);
}

} // verus!

use base_ui_leptos::utils::animation_frame::{AnimationFrame, Scheduler};
use base_ui_leptos::utils::interval::Interval;
use base_ui_leptos::utils::scroll_lock::{
    lock_method, locked_extent, LockMethod,
    has_overflow_keyword, html_overflow_already_hidden, is_overflow_style, ScrollLocker,
};
use base_ui_leptos::utils::timeout::Timeout;

// -- animation frame ---------------------------------------------------------

#[test]
fn new_animation_frame_is_not_scheduled() {
    let af = AnimationFrame::new();
    assert!(!af.is_scheduled());
}

#[test]
fn cancel_on_unscheduled_is_noop() {
    let mut scheduler: Scheduler<u32> = Scheduler::new();
    let mut af = AnimationFrame::new();
    af.cancel(&mut scheduler); // should not panic
    assert!(!af.is_scheduled());
}

#[test]
fn default_is_not_scheduled() {
    let af = AnimationFrame::default();
    assert!(!af.is_scheduled());
}

#[test]
fn scheduler_batches_and_runs_in_order() {
    let mut scheduler: Scheduler<&str> = Scheduler::new();
    let (id1, first) = scheduler.request("a");
    let (id2, second) = scheduler.request("b");
    let (id3, _) = scheduler.request("c");
    assert_eq!((id1, id2, id3), (1, 2, 3));
    assert!(first);
    assert!(!second);
    scheduler.cancel(id2);
    assert_eq!(scheduler.tick(), vec!["a", "c"]);
    // A new batch needs a new frame; ids keep increasing.
    let (id4, again) = scheduler.request("d");
    assert_eq!(id4, 4);
    assert!(again);
    scheduler.cancel(id1); // from an earlier batch: ignored
    assert_eq!(scheduler.tick(), vec!["d"]);
    assert!(scheduler.tick().is_empty());
}

#[test]
fn animation_frame_keeps_one_request() {
    let mut scheduler: Scheduler<u32> = Scheduler::new();
    let mut af = AnimationFrame::new();
    assert!(af.request(&mut scheduler, 1));
    assert!(af.is_scheduled());
    assert!(!af.request(&mut scheduler, 2));
    assert_eq!(scheduler.tick(), vec![2]);
    af.frame_ran();
    assert!(!af.is_scheduled());
}

#[test]
fn static_requests_and_cancellation() {
    let mut scheduler: Scheduler<u32> = Scheduler::new();
    let (id, must_request) = AnimationFrame::request_static(&mut scheduler, 10);
    let (_, later) = AnimationFrame::request_static(&mut scheduler, 20);
    assert!(must_request);
    assert!(!later);
    AnimationFrame::cancel_static(&mut scheduler, id);
    assert_eq!(scheduler.tick(), vec![20]);
}

// -- interval ----------------------------------------------------------------

#[test]
fn new_interval_is_not_started() {
    let interval = Interval::new();
    assert!(!interval.is_started());
}

#[test]
fn interval_default_is_not_started() {
    let interval = Interval::default();
    assert!(!interval.is_started());
}

#[test]
fn interval_start_replaces_previous() {
    let mut interval = Interval::new();
    assert_eq!(interval.start(7), None);
    assert!(interval.is_started());
    assert_eq!(interval.start(8), Some(7));
    assert_eq!(interval.clear(), Some(8));
    assert!(!interval.is_started());
    assert_eq!(interval.clear(), None);
}

// -- timeout -----------------------------------------------------------------

#[test]
fn new_timeout_is_not_started() {
    let timeout = Timeout::new();
    assert!(!timeout.is_started());
}

#[test]
fn timeout_default_is_not_started() {
    let timeout = Timeout::default();
    assert!(!timeout.is_started());
}

#[test]
fn timeout_lifecycle() {
    let mut timeout = Timeout::new();
    assert_eq!(timeout.start(3), None);
    assert_eq!(timeout.start(4), Some(3));
    timeout.fired();
    assert!(!timeout.is_started());
    assert_eq!(timeout.clear(), None);
}

// -- scroll lock -------------------------------------------------------------

#[test]
fn overflow_detection_string_logic() {
    let test_cases = [
        ("auto", true),
        ("scroll", true),
        ("hidden", true),
        ("clip", true),
        ("overlay", true),
        ("visible", false),
        ("", false),
    ];
    for (value, expected) in test_cases {
        let result = has_overflow_keyword(value);
        assert_eq!(result, expected, "Failed for overflow value: {value}");
    }
}

#[test]
fn overflow_element_styles() {
    assert!(is_overflow_style("", "auto", "visible", "block"));
    assert!(!is_overflow_style("", "auto", "", "inline"));
    assert!(!is_overflow_style("visible", "visible", "visible", "block"));
    assert!(!is_overflow_style("hidden", "", "", "contents"));
    assert!(html_overflow_already_hidden("hidden"));
    assert!(html_overflow_already_hidden("clip"));
    assert!(!html_overflow_already_hidden("auto"));
}

#[test]
fn scroll_locker_initial_state() {
    let locker: ScrollLocker<&str> = ScrollLocker::new();
    assert_eq!(locker.lock_count(), 0);
    assert!(!locker.has_restore());
}

#[test]
fn scroll_lock_reference_counting() {
    let mut locker: ScrollLocker<&str> = ScrollLocker::new();
    let (g1, lock_now) = locker.acquire();
    assert!(lock_now);
    // The deferred lock comes due while the lock is held.
    assert!(locker.lock_due());
    locker.set_restore("restore");
    assert!(!locker.lock_due());
    let (mut g2, again) = locker.acquire();
    assert!(!again);
    assert_eq!(locker.lock_count(), 2);
    assert!(!g1.release(&mut locker));
    assert!(locker.has_restore());
    assert!(g2.do_release(&mut locker));
    assert_eq!(locker.lock_count(), 0);
    // The deferred unlock runs the restore action.
    assert_eq!(locker.unlock_due(), Some("restore"));
    assert!(!locker.has_restore());
    assert_eq!(locker.unlock_due(), None);
    // A guard releases only once.
    assert!(!g2.do_release(&mut locker));
    assert_eq!(locker.lock_count(), 0);
}

#[test]
fn rapid_acquire_release_is_batched() {
    let mut locker: ScrollLocker<&str> = ScrollLocker::new();
    // Released before the deferred lock came due: nothing to lock.
    let (g, lock_now) = locker.acquire();
    assert!(lock_now);
    assert!(!g.release(&mut locker));
    assert!(!locker.lock_due());
    // Locked, released, and re-acquired before the deferred unlock came due:
    // the document stays locked and no new lock is scheduled.
    let (g1, _) = locker.acquire();
    locker.set_restore("restore");
    assert!(g1.release(&mut locker));
    let (g2, relock) = locker.acquire();
    assert!(!relock);
    assert_eq!(locker.unlock_due(), None);
    assert!(locker.has_restore());
    assert!(g2.release(&mut locker));
    assert_eq!(locker.unlock_due(), Some("restore"));
}

#[test]
fn cancelling_a_fresh_request_undoes_it() {
    let mut scheduler: Scheduler<u32> = Scheduler::new();
    scheduler.request(1);
    scheduler.request(2);
    let (id, _) = scheduler.request(3);
    scheduler.cancel(id);
    assert_eq!(scheduler.tick(), vec![1, 2]);
}

#[test]
fn cancelling_unknown_or_cancelled_ids_is_harmless() {
    let mut scheduler: Scheduler<u32> = Scheduler::new();
    let (id, _) = scheduler.request(5);
    scheduler.request(6);
    scheduler.cancel(id);
    scheduler.cancel(id);
    scheduler.cancel(0);
    scheduler.cancel(99);
    assert_eq!(scheduler.tick(), vec![6]);
}

#[test]
fn lock_method_choice() {
    assert_eq!(lock_method("hidden", false, true), LockMethod::Keep);
    assert_eq!(lock_method("clip", true, false), LockMethod::Keep);
    assert_eq!(lock_method("auto", true, true), LockMethod::Overlay);
    assert_eq!(lock_method("visible", false, false), LockMethod::Overlay);
    assert_eq!(lock_method("", false, true), LockMethod::Inset);
}

#[test]
fn locked_extent_values() {
    assert_eq!(locked_extent("100dvh", None), "100dvh");
    assert_eq!(locked_extent("100vw", Some("15")), "calc(100vw - 15px)");
    assert_eq!(locked_extent("100dvh", Some("16.5")), "calc(100dvh - 16.5px)");
}

#[test]
fn scheduler_id_increments() {
    let mut scheduler: Scheduler<u32> = Scheduler::new();
    let id1 = scheduler.next_request_id();
    let (given, _) = scheduler.request(7);
    let id2 = scheduler.next_request_id();
    assert_eq!(given, id1);
    assert_eq!(id2, id1 + 1);
}

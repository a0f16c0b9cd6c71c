use base_ui_leptos::csp_provider::{csp_or_default, provide_csp, use_csp, CspContext};
use base_ui_leptos::direction_provider::{
    direction_or_default, provide_direction, use_direction, TextDirection,
};
use base_ui_leptos::utils::use_on_mount::MountOnce;
use base_ui_leptos::labelable_provider::{provide_labelable, LabelableContext};
use leptos::prelude::{use_context, GetUntracked, Owner, RwSignal, Update};
use std::sync::atomic::{AtomicU32, Ordering};
use std::sync::Arc;

#[test]
fn csp_lookup_result_or_default() {
    let found = CspContext { nonce: Some("n".to_string()), disable_style_elements: true };
    assert_eq!(csp_or_default(Some(found.clone())), found);
    assert_eq!(csp_or_default(None), CspContext::default());
}

#[test]
fn direction_lookup_result_or_default() {
    assert_eq!(direction_or_default(Some(TextDirection::Rtl)), TextDirection::Rtl);
    assert_eq!(direction_or_default(Some(TextDirection::Ltr)), TextDirection::Ltr);
    assert_eq!(direction_or_default(None), TextDirection::Ltr);
}

#[test]
fn use_csp_without_provider_is_default() {
    let owner = Owner::new();
    owner.with(|| {
        assert_eq!(use_csp(), CspContext::default());
    });
}

#[test]
fn use_csp_reads_provided_context() {
    let owner = Owner::new();
    let ctx = CspContext { nonce: Some("abc123".to_string()), disable_style_elements: true };
    let expected = ctx.clone();
    owner.with(move || {
        provide_csp(ctx);
        assert_eq!(use_csp(), expected);
    });
}

#[test]
fn use_direction_without_provider_is_ltr() {
    let owner = Owner::new();
    owner.with(|| {
        assert_eq!(use_direction(), TextDirection::Ltr);
    });
}

#[test]
fn use_direction_reads_provided_direction() {
    let owner = Owner::new();
    owner.with(|| {
        provide_direction(TextDirection::Rtl);
        assert_eq!(use_direction(), TextDirection::Rtl);
    });
}

#[test]
fn child_owner_sees_parent_direction() {
    let parent = Owner::new();
    parent.with(|| {
        provide_direction(TextDirection::Rtl);
        let child = Owner::new();
        child.with(|| {
            assert_eq!(use_direction(), TextDirection::Rtl);
        });
    });
}

#[test]
fn mount_cleanup_runs_when_owner_is_cleaned_up() {
    let runs = Arc::new(AtomicU32::new(0));
    let cleanups = Arc::new(AtomicU32::new(0));
    let owner = Owner::new();
    let (r, c) = (runs.clone(), cleanups.clone());
    owner.with(move || {
        let mut once = MountOnce::new(move || {
            r.fetch_add(1, Ordering::SeqCst);
            Some(move || {
                c.fetch_add(1, Ordering::SeqCst);
            })
        });
        assert!(once.fire());
        assert!(!once.fire());
    });
    assert_eq!(runs.load(Ordering::SeqCst), 1);
    assert_eq!(cleanups.load(Ordering::SeqCst), 0);
    owner.cleanup();
    assert_eq!(cleanups.load(Ordering::SeqCst), 1);
}

#[test]
fn mount_without_cleanup() {
    let runs = Arc::new(AtomicU32::new(0));
    let r = runs.clone();
    let mut once = MountOnce::new(move || {
        r.fetch_add(1, Ordering::SeqCst);
        None::<fn()>
    });
    assert!(once.fire());
    assert_eq!(runs.load(Ordering::SeqCst), 1);
}

#[test]
fn provided_labelable_context_is_shared() {
    let owner = Owner::new();
    owner.with(|| {
        let ctx = RwSignal::new(LabelableContext::new());
        provide_labelable(ctx);
        let found = use_context::<RwSignal<LabelableContext>>().expect("provided");
        found.update(|c| c.register_control_id("field"));
        assert_eq!(ctx.get_untracked().control_id().as_deref(), Some("field"));
    });
}

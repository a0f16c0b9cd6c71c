use base_ui_leptos::labelable_provider::{use_labelable_id, LabelableContext};
use base_ui_leptos::utils::use_id::IdCounter;

#[test]
fn default_context_has_no_ids() {
    let ctx = LabelableContext::new();
    assert_eq!(ctx.control_id(), None);
    assert_eq!(ctx.label_id(), None);
    assert!(ctx.message_ids().is_empty());
    let _ = ctx;
}

#[test]
fn with_control_id_constructor() {
    let ctx = LabelableContext::with_control_id("my-input");
    assert_eq!(ctx.control_id(), Some("my-input".to_string()));
    let _ = ctx;
}

#[test]
fn control_id_registration_round_trip() {
    let mut ctx = LabelableContext::default();
    ctx.register_control_id("field-1");
    assert_eq!(ctx.control_id().as_deref(), Some("field-1"));
    ctx.unregister_control_id();
    assert_eq!(ctx.control_id(), None);
}

#[test]
fn label_id_set_and_clear() {
    let mut ctx = LabelableContext::new();
    ctx.set_label_id("label-1");
    assert_eq!(ctx.label_id().as_deref(), Some("label-1"));
    assert_eq!(ctx.control_id(), None);
    ctx.clear_label_id();
    assert_eq!(ctx.label_id(), None);
}

#[test]
fn aria_describedby_joins_message_ids() {
    let mut ctx = LabelableContext::new();
    assert_eq!(ctx.aria_describedby(), None);
    ctx.add_message_id("err");
    assert_eq!(ctx.aria_describedby().as_deref(), Some("err"));
    ctx.add_message_id("hint");
    assert_eq!(ctx.aria_describedby().as_deref(), Some("err hint"));
    assert_eq!(ctx.message_ids(), vec!["err".to_string(), "hint".to_string()]);
}

#[test]
fn remove_message_id_removes_every_occurrence() {
    let mut ctx = LabelableContext::new();
    ctx.add_message_id("a");
    ctx.add_message_id("b");
    ctx.add_message_id("a");
    ctx.remove_message_id("a");
    assert_eq!(ctx.message_ids(), vec!["b".to_string()]);
    ctx.remove_message_id("b");
    assert_eq!(ctx.aria_describedby(), None);
}

#[test]
fn remove_after_add_restores_messages() {
    let mut ctx = LabelableContext::new();
    ctx.add_message_id("x");
    ctx.add_message_id("y");
    ctx.remove_message_id("y");
    assert_eq!(ctx.message_ids(), vec!["x".to_string()]);
}

#[test]
fn labelable_id_registers_override() {
    let mut ctx = LabelableContext::new();
    let mut counter = IdCounter::new();
    let id = use_labelable_id(&mut ctx, &mut counter, Some("email"));
    assert_eq!(id, "email");
    assert_eq!(ctx.control_id().as_deref(), Some("email"));
    assert_eq!(counter.count, 0);
}

#[test]
fn labelable_id_generates_and_registers() {
    let mut ctx = LabelableContext::with_control_id("old");
    let mut counter = IdCounter::new();
    let first = use_labelable_id(&mut ctx, &mut counter, None);
    assert_eq!(first, "base-ui-1");
    assert_eq!(ctx.control_id().as_deref(), Some("base-ui-1"));
    let second = use_labelable_id(&mut ctx, &mut counter, None);
    assert_eq!(second, "base-ui-2");
    assert_eq!(ctx.control_id().as_deref(), Some("base-ui-2"));
}

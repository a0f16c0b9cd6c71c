use base_ui_leptos::utils::detect_browser::{
    android_in_lowercase, firefox_in_lowercase, is_android, is_edge, is_firefox, is_ios, is_mac,
    is_safari, mac_in_lowercase, safari_in_lowercase,
};
use base_ui_leptos::utils::empty::noop;
use base_ui_leptos::utils::is_element_disabled::{is_element_disabled, ElementAttributes};
use base_ui_leptos::utils::merge_class_names::merge_class_names;
use base_ui_leptos::utils::orientation::Orientation;
use base_ui_leptos::utils::use_controlled::{use_controlled, Controlled};
use base_ui_leptos::utils::use_on_mount::MountOnce;
use std::cell::Cell;
use std::rc::Rc;
use base_ui_leptos::utils::use_enhanced_click_handler::{ClickTracker, InteractionType};
use base_ui_leptos::utils::use_previous_value::PreviousValue;
use base_ui_leptos::utils::visually_hidden::{
    visually_hidden_declarations, VISUALLY_HIDDEN, VISUALLY_HIDDEN_INPUT,
};
use base_ui_leptos::utils::warn::{reset, warn, WarnRegistry};

#[test]
fn ios_platform_detection() {
    let test_cases = [
        ("iPhone", true),
        ("iPad", true),
        ("iPod", true),
        ("iOS", true),
        ("Android", false),
        ("MacIntel", false),
        ("Linux", false),
    ];
    for (platform, expected) in test_cases {
        let result = is_ios(platform, 0);
        assert_eq!(result, expected, "Failed for platform: {platform}");
    }
}

#[test]
fn ipad_claiming_macintel_is_ios() {
    assert!(is_ios("MacIntel", 5));
    assert!(is_mac("MacIntel", 0));
    assert!(!is_mac("MacIntel", 5));
}

#[test]
fn user_agent_detection() {
    let firefox = "Mozilla/5.0 (X11; Linux x86_64; rv:120.0) Gecko/20100101 Firefox/120.0";
    let chrome = "Mozilla/5.0 (X11; Linux x86_64) AppleWebKit/537.36 (KHTML, like Gecko) Chrome/120.0 Safari/537.36";
    let safari = "Mozilla/5.0 (Macintosh) AppleWebKit/605.1.15 (KHTML, like Gecko) Version/17.0 Safari/605.1.15";
    assert!(is_firefox(firefox));
    assert!(!is_firefox(chrome));
    assert!(is_safari(safari));
    assert!(!is_safari(chrome));
    assert!(is_edge("Mozilla/5.0 Chrome/120.0 Edg/120.0"));
    assert!(!is_edge(chrome));
}

#[test]
fn noop_does_nothing() {
    noop(); // should not panic
}

#[test]
fn disabled_detection() {
    assert!(is_element_disabled(None));
    let enabled = ElementAttributes {
        disabled: false,
        aria_disabled: None,
    };
    assert!(!is_element_disabled(Some(&enabled)));
    let attr = ElementAttributes {
        disabled: true,
        aria_disabled: None,
    };
    assert!(is_element_disabled(Some(&attr)));
    let aria = ElementAttributes {
        disabled: false,
        aria_disabled: Some("true".to_string()),
    };
    assert!(is_element_disabled(Some(&aria)));
    let aria_false = ElementAttributes {
        disabled: false,
        aria_disabled: Some("false".to_string()),
    };
    assert!(!is_element_disabled(Some(&aria_false)));
}

#[test]
fn merges_both() {
    assert_eq!(
        merge_class_names(Some("our-class"), Some("their-class")),
        Some("their-class our-class".to_string())
    );
}

#[test]
fn returns_theirs_only() {
    assert_eq!(
        merge_class_names(None, Some("their-class")),
        Some("their-class".to_string())
    );
}

#[test]
fn returns_ours_only() {
    assert_eq!(
        merge_class_names(Some("our-class"), None),
        Some("our-class".to_string())
    );
}

#[test]
fn returns_none_for_both_none() {
    assert_eq!(merge_class_names(None, None), None);
}

#[test]
fn preserves_multiple_classes() {
    assert_eq!(
        merge_class_names(Some("a b"), Some("c d")),
        Some("c d a b".to_string())
    );
}

#[test]
fn default_is_horizontal() {
    assert_eq!(Orientation::default(), Orientation::Horizontal);
}

#[test]
fn orientation_as_str_values() {
    assert_eq!(Orientation::Horizontal.as_str(), "horizontal");
    assert_eq!(Orientation::Vertical.as_str(), "vertical");
}

#[test]
fn display_matches_as_str() {
    assert_eq!(Orientation::Horizontal.to_string(), "horizontal");
    assert_eq!(Orientation::Vertical.to_string(), "vertical");
}

#[test]
fn interaction_type_from_pointer_type() {
    assert_eq!(InteractionType::from_pointer_type("mouse"), InteractionType::Mouse);
    assert_eq!(InteractionType::from_pointer_type("touch"), InteractionType::Touch);
    assert_eq!(InteractionType::from_pointer_type("pen"), InteractionType::Pen);
    assert_eq!(InteractionType::from_pointer_type(""), InteractionType::Unknown);
    assert_eq!(InteractionType::from_pointer_type("other"), InteractionType::Unknown);
}

#[test]
fn click_tracking() {
    let mut tracker = ClickTracker::new();
    assert_eq!(tracker.click(0, None), InteractionType::Keyboard);
    assert_eq!(tracker.pointer_down(true, "pen"), None);
    assert_eq!(tracker.pointer_down(false, "touch"), Some(InteractionType::Touch));
    // Safari/Firefox: the click carries no pointer type.
    assert_eq!(tracker.click(1, None), InteractionType::Touch);
    assert_eq!(tracker.click(1, None), InteractionType::Unknown);
    // Chrome/Edge: the click is a pointer event.
    assert_eq!(tracker.click(1, Some("mouse")), InteractionType::Mouse);
}

#[test]
fn controlled_value_ignores_writes() {
    let mut controlled = Controlled::new(Some(3), 0);
    controlled.set(9);
    assert_eq!(controlled.get(), 3);
    controlled.sync_controlled(4);
    assert_eq!(controlled.get(), 4);
    let mut free = Controlled::new(None, 0);
    assert_eq!(free.get(), 0);
    free.set(9);
    assert_eq!(free.get(), 9);
}

#[test]
fn previous_value_tracking() {
    let mut p = PreviousValue::new();
    assert_eq!(*p.previous(), None);
    p.observe(1);
    assert_eq!(*p.previous(), None);
    p.observe(1);
    assert_eq!(*p.previous(), None);
    p.observe(2);
    assert_eq!(*p.previous(), Some(1));
    p.observe(3);
    assert_eq!(*p.previous(), Some(2));
}

#[test]
fn visually_hidden_contains_expected_properties() {
    assert!(VISUALLY_HIDDEN.contains("clip-path:inset(50%)"));
    assert!(VISUALLY_HIDDEN.contains("overflow:hidden"));
    assert!(VISUALLY_HIDDEN.contains("white-space:nowrap"));
    assert!(VISUALLY_HIDDEN.contains("width:1px"));
    assert!(VISUALLY_HIDDEN.contains("height:1px"));
    assert!(VISUALLY_HIDDEN.contains("margin:-1px"));
    assert!(VISUALLY_HIDDEN.contains("position:fixed"));
    assert!(VISUALLY_HIDDEN.contains("top:0"));
    assert!(VISUALLY_HIDDEN.contains("left:0"));
}

#[test]
fn visually_hidden_input_uses_absolute_positioning() {
    assert!(VISUALLY_HIDDEN_INPUT.contains("position:absolute"));
    assert!(!VISUALLY_HIDDEN_INPUT.contains("position:fixed"));
    // Should not contain top/left (only the fixed variant has those)
    assert!(!VISUALLY_HIDDEN_INPUT.contains("top:0"));
}

#[test]
fn reset_clears_seen_messages() {
    let mut registry = WarnRegistry::new();
    let _ = warn(&mut registry, &["something"]);
    reset(&mut registry);
    assert!(registry.is_empty());
}

#[test]
fn deduplication_logic() {
    let mut registry = WarnRegistry::new();
    reset(&mut registry);
    {
        assert!(!registry.contains("test warning"));
        assert_eq!(
            warn(&mut registry, &["test warning"]),
            Some("Base UI: test warning".to_string())
        );
        assert!(registry.contains("test warning"));
        assert_eq!(warn(&mut registry, &["test warning"]), None);
        assert_eq!(registry.len(), 1);
    }
    reset(&mut registry);
}

#[test]
fn warn_joins_messages() {
    let mut registry = WarnRegistry::new();
    assert_eq!(
        warn(&mut registry, &["a", "b", "c"]),
        Some("Base UI: a b c".to_string())
    );
    assert!(registry.contains("a b c"));
}

#[test]
fn use_controlled_prefers_the_parent_value() {
    let mut controlled = use_controlled(Some(7u32), 1);
    assert_eq!(controlled.get(), 7);
    controlled.set(3);
    assert_eq!(controlled.get(), 7);
    let mut uncontrolled = use_controlled(None, 1u32);
    assert_eq!(uncontrolled.get(), 1);
    uncontrolled.set(3);
    assert_eq!(uncontrolled.get(), 3);
}

#[test]
fn mount_callback_runs_once() {
    let runs = Rc::new(Cell::new(0u32));
    let seen = runs.clone();
    let mut once = MountOnce::new(move || seen.set(seen.get() + 1));
    assert!(once.fire());
    assert!(!once.fire());
    assert!(!once.fire());
    assert_eq!(runs.get(), 1);
}

#[test]
fn visually_hidden_declarations_match_style_strings() {
    let join = |decls: Vec<(&str, &str)>| {
        decls.iter().map(|(n, v)| format!("{n}:{v}")).collect::<Vec<_>>().join(";")
    };
    assert_eq!(join(visually_hidden_declarations(false)), VISUALLY_HIDDEN);
    assert_eq!(join(visually_hidden_declarations(true)), VISUALLY_HIDDEN_INPUT);
    assert_eq!(visually_hidden_declarations(true).len(), 9);
    assert_eq!(visually_hidden_declarations(false).len(), 11);
}

#[test]
fn detection_ignores_case() {
    assert!(is_firefox("MOZILLA/5.0 FIREFOX/120.0"));
    assert!(is_safari("Mozilla/5.0 Version/17.0 SAFARI/605.1.15"));
    assert!(!is_safari("Mozilla/5.0 CHROMIUM/120 Safari/537.36"));
    assert!(is_android("Linux armv8l", "Mozilla/5.0 (Linux; ANDROID 14)"));
    assert!(is_android("Android", ""));
    assert!(!is_android("Linux x86_64", "Mozilla/5.0 (X11; Linux x86_64)"));
    assert!(is_mac("Macintosh", 0));
    assert!(!is_mac("Win32", 0));
}

#[test]
fn detection_on_lowercased_text() {
    assert!(firefox_in_lowercase("mozilla/5.0 firefox/120.0"));
    assert!(!firefox_in_lowercase("mozilla/5.0 Firefox/120.0"));
    assert!(safari_in_lowercase("version/17.0 safari/605.1.15"));
    assert!(!safari_in_lowercase("chrome/120.0 safari/537.36"));
    assert!(android_in_lowercase("", "linux; android 14"));
    assert!(!android_in_lowercase("Android", ""));
    assert!(mac_in_lowercase("macintel", 0));
    assert!(!mac_in_lowercase("MacIntel", 0));
    assert!(!mac_in_lowercase("macintel", 2));
}

#[test]
fn returns_true_for_none() {
    assert!(is_element_disabled(None));
}

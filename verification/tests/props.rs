use base_ui_leptos::utils::props::{ClassProp, RenderProp, RenderProps, StyleProp};

/// State type for the test widget.
#[derive(Clone, Copy, Debug, PartialEq, Eq)]
struct WidgetState {
    active: bool,
}

type TextFn = Box<dyn Fn(&WidgetState) -> String + Send + Sync>;
type RenderFn = Box<dyn Fn(RenderProps, &WidgetState) + Send + Sync>;

fn computed(f: impl Fn(&WidgetState) -> String + Send + Sync + 'static) -> TextFn {
    Box::new(f)
}

fn custom_render() -> RenderProp<WidgetState, RenderFn> {
    RenderProp::from(Box::new(|_props: RenderProps, _state: &WidgetState| ()) as RenderFn)
}

/// What the widget would resolve for a given set of inputs.
#[derive(Debug)]
struct Resolved {
    class: Option<String>,
    style: Option<String>,
    is_custom_render: bool,
    /// Present only when `render.is_custom()`.
    render_props: Option<RenderProps>,
}

/// The widget's resolution logic: class, style and render props.
fn resolve_widget(
    active: bool,
    class: ClassProp<WidgetState, TextFn>,
    style: StyleProp<WidgetState, TextFn>,
    render: RenderProp<WidgetState, RenderFn>,
) -> Resolved {
    let state = WidgetState { active };

    if render.is_custom() {
        let props = RenderProps {
            class: class.resolve(&state),
            style: style.resolve(&state),
            attrs: vec![],
        }
        .attr("role", "widget")
        .attr("data-active", if state.active { "" } else { "false" });
        let _ = render.call(props.clone(), &state);
        Resolved {
            class: Some(props.class.clone()),
            style: Some(props.style.clone()),
            is_custom_render: true,
            render_props: Some(props),
        }
    } else {
        Resolved {
            class: class.resolve_option(&state),
            style: style.resolve_option(&state),
            is_custom_render: false,
            render_props: None,
        }
    }
}

#[test]
fn widget_defaults_produce_no_class_or_style() {
    let r = resolve_widget(
        false,
        ClassProp::default(),
        StyleProp::default(),
        RenderProp::default(),
    );
    assert!(r.class.is_none());
    assert!(r.style.is_none());
    assert!(!r.is_custom_render);
    assert!(r.render_props.is_none());
}

#[test]
fn widget_class_from_str_literal() {
    let r = resolve_widget(
        false,
        ClassProp::from("btn"),
        StyleProp::default(),
        RenderProp::default(),
    );
    assert_eq!(r.class, Some("btn".to_string()));
}

#[test]
fn widget_class_from_owned_string() {
    let r = resolve_widget(
        false,
        ClassProp::from(String::from("card")),
        StyleProp::default(),
        RenderProp::default(),
    );
    assert_eq!(r.class, Some("card".to_string()));
}

#[test]
fn widget_class_from_state_closure_inactive() {
    let class = ClassProp::from(computed(|s| {
        if s.active {
            "widget active".into()
        } else {
            "widget".into()
        }
    }));
    let r = resolve_widget(false, class, StyleProp::default(), RenderProp::default());
    assert_eq!(r.class, Some("widget".to_string()));
}

#[test]
fn widget_class_from_state_closure_active() {
    let class = ClassProp::from(computed(|s| {
        if s.active {
            "widget active".into()
        } else {
            "widget".into()
        }
    }));
    let r = resolve_widget(true, class, StyleProp::default(), RenderProp::default());
    assert_eq!(r.class, Some("widget active".to_string()));
}

#[test]
fn widget_class_closure_returning_empty_yields_none() {
    let class = ClassProp::from(computed(|_| String::new()));
    let r = resolve_widget(false, class, StyleProp::default(), RenderProp::default());
    assert!(r.class.is_none());
}

#[test]
fn widget_style_from_str_literal() {
    let r = resolve_widget(
        false,
        ClassProp::default(),
        StyleProp::from("color: red;"),
        RenderProp::default(),
    );
    assert_eq!(r.style, Some("color: red;".to_string()));
}

#[test]
fn widget_style_from_owned_string() {
    let r = resolve_widget(
        false,
        ClassProp::default(),
        StyleProp::from(String::from("display: flex;")),
        RenderProp::default(),
    );
    assert_eq!(r.style, Some("display: flex;".to_string()));
}

#[test]
fn widget_style_from_state_closure() {
    let style = StyleProp::from(computed(|s| {
        if s.active {
            "opacity: 1;".into()
        } else {
            "opacity: 0.5;".into()
        }
    }));
    let r = resolve_widget(true, ClassProp::default(), style, RenderProp::default());
    assert_eq!(r.style, Some("opacity: 1;".to_string()));
}

#[test]
fn widget_style_closure_returning_empty_yields_none() {
    let style = StyleProp::from(computed(|_| String::new()));
    let r = resolve_widget(false, ClassProp::default(), style, RenderProp::default());
    assert!(r.style.is_none());
}

#[test]
fn widget_class_and_style_both_present() {
    let r = resolve_widget(
        false,
        ClassProp::from("card"),
        StyleProp::from("padding: 8px;"),
        RenderProp::default(),
    );
    assert_eq!(r.class, Some("card".to_string()));
    assert_eq!(r.style, Some("padding: 8px;".to_string()));
    assert!(!r.is_custom_render);
}

#[test]
fn widget_render_default_is_not_custom() {
    let r = resolve_widget(
        false,
        ClassProp::default(),
        StyleProp::default(),
        RenderProp::default(),
    );
    assert!(!r.is_custom_render);
}

#[test]
fn widget_render_custom_receives_resolved_class_and_style() {
    let class = ClassProp::from("rendered");
    let style = StyleProp::from("color: blue;");
    let r = resolve_widget(false, class, style, custom_render());
    assert!(r.is_custom_render);
    let rp = r.render_props.unwrap();
    assert_eq!(rp.class, "rendered");
    assert_eq!(rp.style, "color: blue;");
}

#[test]
fn widget_render_custom_includes_data_attrs() {
    let r = resolve_widget(true, ClassProp::default(), StyleProp::default(), custom_render());
    let rp = r.render_props.unwrap();
    // Should have role + data-active attrs
    assert_eq!(rp.attrs.len(), 2);
    assert_eq!(rp.attrs[0], ("role", "widget".to_string()));
    // active=true → data-active=""
    assert_eq!(rp.attrs[1], ("data-active", "".to_string()));
}

#[test]
fn widget_render_custom_inactive_data_attr() {
    let r = resolve_widget(false, ClassProp::default(), StyleProp::default(), custom_render());
    let rp = r.render_props.unwrap();
    // active=false → data-active="false"
    assert_eq!(rp.attrs[1], ("data-active", "false".to_string()));
}

#[test]
fn widget_render_custom_with_state_dependent_class() {
    let class = ClassProp::from(computed(|s| if s.active { "on".into() } else { "off".into() }));
    // active = true → class should resolve to "on"
    let r = resolve_widget(true, class, StyleProp::default(), custom_render());
    let rp = r.render_props.unwrap();
    assert_eq!(rp.class, "on");
}

#[test]
fn widget_render_custom_with_state_dependent_style() {
    let style = StyleProp::from(computed(|s| {
        if s.active {
            "font-weight: bold;".into()
        } else {
            String::new()
        }
    }));
    // active = false → style should resolve to ""
    let r = resolve_widget(false, ClassProp::default(), style, custom_render());
    let rp = r.render_props.unwrap();
    assert!(rp.style.is_empty());
}

#[test]
fn widget_all_props_combined() {
    let class = ClassProp::from(computed(|s| {
        format!("widget{}", if s.active { " active" } else { "" })
    }));
    let style = StyleProp::from(computed(|s| {
        if s.active {
            "outline: 2px solid blue;".into()
        } else {
            "outline: none;".into()
        }
    }));

    let r = resolve_widget(true, class, style, custom_render());
    assert!(r.is_custom_render);
    let rp = r.render_props.unwrap();
    assert_eq!(rp.class, "widget active");
    assert_eq!(rp.style, "outline: 2px solid blue;");
    assert_eq!(rp.attrs[0], ("role", "widget".to_string()));
    assert_eq!(rp.attrs[1], ("data-active", "".to_string()));
}

#[test]
fn widget_same_props_different_state_produces_different_output() {
    let make_class = || -> ClassProp<WidgetState, TextFn> {
        ClassProp::from(computed(|s| {
            if s.active { "active".into() } else { "inactive".into() }
        }))
    };
    let make_style = || -> StyleProp<WidgetState, TextFn> {
        StyleProp::from(computed(|s| {
            if s.active {
                "color: green;".into()
            } else {
                "color: gray;".into()
            }
        }))
    };

    let r_off = resolve_widget(false, make_class(), make_style(), RenderProp::default());
    let r_on = resolve_widget(true, make_class(), make_style(), RenderProp::default());

    assert_eq!(r_off.class, Some("inactive".to_string()));
    assert_eq!(r_off.style, Some("color: gray;".to_string()));
    assert_eq!(r_on.class, Some("active".to_string()));
    assert_eq!(r_on.style, Some("color: green;".to_string()));
}

#[test]
fn render_call_without_custom_is_none() {
    let render: RenderProp<WidgetState, fn(RenderProps, &WidgetState) -> u8> =
        RenderProp::default();
    assert_eq!(render.call(RenderProps::default(), &WidgetState { active: true }), None);
    let custom: RenderProp<WidgetState, fn(RenderProps, &WidgetState) -> u8> =
        RenderProp::from((|p: RenderProps, s: &WidgetState| p.attrs.len() as u8 + s.active as u8) as fn(RenderProps, &WidgetState) -> u8);
    let props = RenderProps::new(String::new(), String::new()).attr("a", "1");
    assert_eq!(custom.call(props, &WidgetState { active: true }), Some(2));
}

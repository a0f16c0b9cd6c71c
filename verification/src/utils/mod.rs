//! Shared utilities: identifiers, prop resolution, scheduling state,
//! scroll locking, the observable store and text helpers.

pub mod animation_frame;
pub mod detect_browser;
pub mod empty;
pub mod format_error_message;
pub mod generate_id;
pub mod interval;
pub mod is_element_disabled;
pub mod merge_class_names;
pub mod orientation;
pub mod props;
pub mod scroll_lock;
pub mod store;
pub mod text;
pub mod timeout;
pub mod use_controlled;
pub mod use_enhanced_click_handler;
pub mod use_id;
pub mod use_on_mount;
pub mod use_previous_value;
pub mod visually_hidden;
pub mod warn;

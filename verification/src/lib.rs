//! Headless, accessible UI building blocks: the data models, state machines
//! and string logic behind the avatar, meter, progress, separator, fieldset and
//! provider components, with their contracts proved by Verus.

pub mod avatar;
mod context;
pub mod csp_provider;
pub mod direction_provider;
pub mod fieldset;
pub mod floating_ui;
pub mod meter;
pub mod progress;
pub mod separator;
pub mod utils;
pub mod use_media_query;
pub mod labelable_provider;

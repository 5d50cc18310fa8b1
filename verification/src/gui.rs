//! The configuration window: its state and what its views show.

pub mod app;
pub mod gesture_presets;
pub mod i18n;
pub mod mouse_model;
pub mod permissions;
pub mod permissions_page;
pub mod picker;
pub mod state;

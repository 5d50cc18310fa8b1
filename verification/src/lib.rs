//! Configuration, gesture and device-state logic for Logitech mice and keyboards.

pub mod agent;
pub mod arith;
pub mod binding;
pub mod bindings;
pub mod button_map;
pub mod clock;
pub mod color;
pub mod config;
pub mod device;
pub mod device_order;
pub mod event_monitor;
pub mod gesture_coordinator;
pub mod gui;
pub mod hid;
pub mod hook_runtime;
pub mod ipc;
pub mod orchestrator;
pub mod shared;
pub mod text;
pub mod text_map;
pub mod watchers;

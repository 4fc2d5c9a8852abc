//! Last-tab tracking for a Herdr plugin: the remembered tabs, how Herdr's events and
//! the toggle action change them, and how they are stored.

pub mod clock;
pub mod command;
pub mod error;
pub mod json;
pub mod memory;
pub mod persist;
pub mod protocol;
pub mod session;
pub mod store;
pub mod tabs;

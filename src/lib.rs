//! Window and tray lifecycle controller for a desktop overlay: the shared pin
//! flag, the tray menu that mirrors it, the close-to-hide policy, the
//! per-platform window setup and the single-instance launch decision.

pub mod pin;
pub mod tray;
pub mod window;
pub mod controller;
pub mod platform;
pub mod lifecycle;
pub mod log_level;

//! Window-lifecycle and input-routing core of a two-window desktop shell.
//!
//! The library decides; the host toolkit acts. Every entry point reads a
//! [`window::Registry`] snapshot and returns the toolkit operations
//! ([`ops::Op`]) to perform, whose effect on the registry is given by
//! [`ops::step`].
pub mod text;
pub mod window;
pub mod config;
pub mod ops;
pub mod controller;
pub mod shortcut;
pub mod tray;
pub mod bridge;
pub mod laws;

//! Core of a freedesktop.org notification daemon that drives an external
//! widget-toolkit renderer.
//!
//! The crate holds the daemon's decision logic: the registry of active
//! notifications and the bounded history, the bus-service state machine, the
//! control-channel command codec, and the builders for the renderer's widget
//! payloads and command lines.  Everything that performs I/O (the session bus,
//! the control socket, timers, the renderer subprocess, icon files) lives
//! outside this crate and feeds plain values in and out.

pub mod config;
pub mod ewwface;
pub mod ipc;
pub mod laws;
pub mod notifdaemon;
pub mod registry;
pub mod text;

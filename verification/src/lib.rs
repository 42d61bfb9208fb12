//! Core of a greetd-style graphical login front-end: the message types
//! exchanged between the presentation layer and the background worker, the
//! protocol state machine that drives one authentication conversation and one
//! session-start exchange against the daemon, and the small pure helpers the
//! presentation layer relies on (settings resolution, a one-slot cache).
//!
//! All I/O (the daemon socket, the mailboxes, the rendering loop) lives in the
//! surrounding application; this crate holds the decisions, each with a
//! contract that pins it down.

pub mod cache;
pub mod display;
pub mod messages;
pub mod protocol;
pub mod settings;

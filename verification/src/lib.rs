//! Host-side runtime core for an interactive, script-driven application.
//!
//! The crate models the pieces of the host that decide and compute:
//! tracking keyboard input state, compiling script sources against a set
//! of host capability modules, driving a script virtual machine through
//! its call-state machine, and the per-iteration protocol of the frame
//! loop. Window creation, event polling and frame presentation are
//! collaborators that live outside this crate.

pub mod api;
pub mod diag;
pub mod engine;
pub mod frame;
pub mod game;
pub mod input;
pub mod runtime;

//! Core of a terminal-based interactive list editor: a modal (Normal /
//! Insert / Popup) state machine over an ordered list of strings, a cyclic
//! selection cursor, and a pending input buffer, together with the key
//! dispatch table and the per-frame render plan.
//!
//! Terminal I/O itself (raw mode, key capture, drawing) is left to the
//! binary that embeds this crate; everything here is pure state and logic.

pub mod dispatch;
pub mod laws;
pub mod render;
pub mod state;

//! Push-to-talk key observer: the decisions behind a system-wide low-level
//! keyboard hook, stated and proved as a state machine over plain values.
//!
//! The operating-system calls (installing the hook, pumping its message
//! queue, posting the quit message, emitting events to listeners) are made
//! by the host around this library; every choice they depend on is made here.

pub mod callback;
pub mod controller;
pub mod laws;
pub mod win32;

//! Handles for synthesized keyboard, mouse and scroll events.
//!
//! The crate holds everything about an event handle that can be decided
//! without touching the window server: the numeric codes of the event
//! categories, the modifier bitmask, the UTF-16 text override, the calls a
//! handle sends across the native boundary and the way it reads the answers.
//! A caller performs each [`native::NativeCall`] and hands the
//! [`native::NativeReply`] back.
//!
//! [`table::EventTable`] is a native layer in memory: it performs the same
//! calls without a window server. [`laws`] states what holds of every handle
//! over it.
pub mod error;
pub mod event;
pub mod flags;
pub mod laws;
pub mod native;
pub mod table;
pub mod types;
pub mod utf16;

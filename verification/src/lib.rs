//! Per-application volume control, the verified core.
//!
//! When a configured modifier key is held, the media volume keys act on the
//! audio session of the application that owns keyboard focus instead of the
//! system master volume.  This crate holds the logic of that feature: mapping
//! a focused window's process to an audio session, the level and mute
//! arithmetic, the chord detection performed inside the keyboard hook, and
//! the shared configuration those parts read.  The operating-system
//! boundaries (the hook itself, the audio endpoint, the tray menu) hand the
//! library plain values and carry its answers back out.

pub mod controller;
pub mod hotkey;
pub mod modifier;
pub mod process;
pub mod session;
pub mod volume;

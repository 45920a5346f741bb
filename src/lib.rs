//! A verified core for binding typed window objects to a pointer-keyed,
//! message-passing windowing host: payload decoding, the per-window
//! dispatch state machine, and the stack layout of child controls.

pub mod words;
pub mod message;
pub mod dispatch;
pub mod lifecycle;
pub mod handler;
pub mod margins;
pub mod controls;
pub mod screen;
pub mod window;
pub mod theme;
pub mod quiz;
pub mod diagnostics;
pub mod subclass;

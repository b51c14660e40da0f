//! Interception of native drag-and-drop over a window that an embedded
//! browser engine owns, and the webview of the Servo backend.
//!
//! The host wants to see, and the engine must keep seeing, every drag
//! notification that the windowing system delivers. This crate holds the
//! decisions of that interception as three small protocols, each a function
//! from a state and an event to the next state and the next thing to do:
//!
//! * [`extract`] asks a data-transfer object for its list of file paths;
//! * [`handler`] taps one drag notification and forwards it to the engine;
//! * [`controller`] installs interceptors on the child windows of a root.
//!
//! None of them touches the windowing system. The caller performs what a
//! protocol asks for and reports back what the system answered, so every
//! decision is made here, for every possible answer. Each protocol comes
//! with the laws that hold of its runs.
//!
//! [`event`], [`geometry`] and [`status`] hold the values that the protocols
//! speak of. [`servo`] is the webview of the Servo backend and what its
//! window tells the media player.

pub mod controller;
pub mod event;
pub mod extract;
pub mod geometry;
pub mod handler;
pub mod servo;
pub mod status;

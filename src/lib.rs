//! Decision logic for acquiring a windowed GPU rendering context.
//!
//! The handshake between an application, a window and a graphics backend is
//! modelled as a state machine: the driver performs each requested action
//! against the platform and reports the outcome back as an event.
pub mod diagnostics;
pub mod error;
pub mod format;
pub mod handshake;
pub mod laws;

//! Core logic of a fixed-rate virtual-machine front end: translating physical
//! key events into keypad state commands, pacing the machine a fixed number of
//! steps per displayed frame, gating a tone on the machine's audio flag, and
//! turning a boolean framebuffer into scaled rectangles for display.
//!
//! The machine engine itself and the windowing, audio and file systems are
//! external collaborators: this crate decides, the surrounding program acts.

pub mod cli;
pub mod gate;
pub mod input;
pub mod keymap;
pub mod present;
pub mod sync_loop;

pub use keymap::Key;

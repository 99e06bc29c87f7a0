//! Decision logic of a one-shot text-to-speech overlay.
//!
//! A small always-on-top text box takes one line of text, sends it to a cloud
//! speech endpoint, plays the audio that comes back on a chosen output device
//! and then lets the process exit. This crate holds every decision of that
//! flow and proves it against explicit contracts. Drawing the window, moving
//! bytes over the network and driving the sound card are left to the caller,
//! who reports what happened as plain values.

pub mod outcome;
pub mod config;
pub mod device;
pub mod container;
pub mod audio;
pub mod synthesis;
pub mod signal;
pub mod pipeline;
pub mod lifecycle;

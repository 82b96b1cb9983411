//! Decision logic of a one-slider MIDI volume controller.

pub mod binder;
pub mod controller;
pub mod message;
pub mod slider;

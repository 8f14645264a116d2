//! The logic of a split keyboard.
//!
//! The keyboard is two halves. Each half scans its own switches, looks the switch up in its
//! keymap, acts as a USB keyboard, and tells the other half over the air what it did, so that
//! both halves send the same key events to whichever computer they are plugged into.

pub mod controller;
pub mod keycodes;
pub mod keymap;
pub mod laws;
pub mod lights;
pub mod link;
pub mod message;
pub mod places;
pub mod schedule;

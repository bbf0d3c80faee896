//! Core of a virtual-gamepad and MIDI bridge.
//!
//! A script-facing layer (kept outside this crate) asks for a synthetic
//! gamepad device and feeds it button and axis changes, and receives
//! normalized events from a physical MIDI controller.  This crate holds the
//! protocol-level core: the symbolic-name registry, the device-descriptor
//! builder, the event encoder, the MIDI byte decoder, and the
//! producer-to-consumer dispatch model.  The kernel and MIDI I/O calls
//! themselves stay with the caller, which hands this crate plain values and
//! writes out the records it returns.

pub mod device;
pub mod dispatch;
pub mod encode;
pub mod midi;
pub mod registry;

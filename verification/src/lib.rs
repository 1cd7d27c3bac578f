//! Engine for an 8x8 MIDI pad light controller.
//!
//! The library maps grid coordinates to the device's native cell addresses,
//! keeps a per-cell palette-color store, builds the device's System Exclusive
//! and Note-On messages, and decodes the inbound binary command stream into
//! typed instructions. Transport (MIDI ports, network sockets) stays outside;
//! every function here returns the bytes to send rather than sending them.

pub mod dispatch;
pub mod grid;
pub mod protocol;
pub mod store;
pub mod sysex;

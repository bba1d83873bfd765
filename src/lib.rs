//! Translates the live state of a modern game controller into the packets of
//! a PlayStation 2 controller emulator on a serial link, and the emulator's
//! answers into vibration commands.
//!
//! - `codec`: conversions between buttons, axes and wire bytes.
//! - `packet`: controller state and the seven- and twenty-byte packets.
//! - `session`: the handshake that decides the device's dialect.
//! - `pump`: the per-frame decisions and the frame clock.

pub mod codec;
pub mod packet;
pub mod pump;
pub mod session;

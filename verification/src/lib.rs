//! Communication core of a device-flashing tool.
//!
//! The crate models the pieces that drive a ROM bootloader over a serial
//! byte stream: a SLIP-style frame codec, a classifier that turns low-level
//! I/O outcomes into a closed connection-error taxonomy, a retrying command
//! engine, a decoder for the bootloader's numeric status codes, stage
//! tagging of failures (connecting vs. flashing), chip and flash-geometry
//! detection, and structural validation of a partition table with
//! span-accurate diagnostics.

pub mod codec;
pub mod connection;
pub mod detect;
pub mod engine;
pub mod error;
pub mod partition;
pub mod status;
pub mod substrate;

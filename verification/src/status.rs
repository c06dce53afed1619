//! Device Status Decoder: the bootloader answers each command with a
//! numeric status byte; this module maps every such byte to a named
//! failure reason. The mapping is total: the known codes 0x05 through
//! 0x0b each have their own reason, and every other value falls back to
//! the catch-all [`RomError::Other`].

use vstd::prelude::*;

verus! {

/// A failure reason reported by the device's ROM bootloader.
#[derive(Copy, Clone, Debug, PartialEq, Eq, Structural)]
pub enum RomError {
    /// Status 0x05: the device received a message it could not parse.
    InvalidMessage,
    /// Status 0x06: the bootloader failed to execute the command.
    FailedToAct,
    /// Status 0x07: the received message has an invalid checksum.
    InvalidCrc,
    /// Status 0x08: the bootloader failed to write to flash.
    FlashWriteError,
    /// Status 0x09: the bootloader failed to read from flash.
    FlashReadError,
    /// Status 0x0a: the requested flash read length is invalid.
    FlashReadLengthError,
    /// Status 0x0b: the device received malformed compressed data.
    DeflateError,
    /// Any status byte outside the known set.
    Other,
}

/// The total decoding of a raw status byte into its named reason.
pub open spec fn status_reason(raw: u8) -> RomError {
    if raw == 0x05 {
        RomError::InvalidMessage
    } else if raw == 0x06 {
        RomError::FailedToAct
    } else if raw == 0x07 {
        RomError::InvalidCrc
    } else if raw == 0x08 {
        RomError::FlashWriteError
    } else if raw == 0x09 {
        RomError::FlashReadError
    } else if raw == 0x0a {
        RomError::FlashReadLengthError
    } else if raw == 0x0b {
        RomError::DeflateError
    } else {
        RomError::Other
    }
}

impl From<u8> for RomError {
    /// Decode a raw status byte; never fails, unknown codes become `Other`.
    fn from(raw: u8) -> (r: RomError) {
        match raw {
            0x05 => RomError::InvalidMessage,
            0x06 => RomError::FailedToAct,
            0x07 => RomError::InvalidCrc,
            0x08 => RomError::FlashWriteError,
            0x09 => RomError::FlashReadError,
            0x0a => RomError::FlashReadLengthError,
            0x0b => RomError::DeflateError,
            _ => RomError::Other,
        }
    }
}

impl vstd::std_specs::convert::FromSpecImpl<u8> for RomError {
    open spec fn obeys_from_spec() -> bool {
        true
    }

    open spec fn from_spec(raw: u8) -> RomError {
        status_reason(raw)
    }
}

/// Decode a raw status byte into its named reason.
///
/// Total over all byte values: each known code 0x05..=0x0b yields its own
/// reason, and every other value yields the catch-all `Other`.
pub fn decode_status(raw: u8) -> (r: RomError)
    ensures
        r == status_reason(raw),
{
    RomError::from(raw)
}

} // verus!

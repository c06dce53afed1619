//! Chip and flash-geometry detection: pure lookups from the identity
//! values read out of a connected device. A value outside the static
//! table fails with the raw value preserved, so the caller can report
//! exactly what was seen.

use vstd::prelude::*;

verus! {

/// A chip variant recognized by the magic value in its identity register.
#[derive(Copy, Clone, Debug, PartialEq, Eq, Structural)]
pub enum Chip {
    Esp8266,
    Esp32,
    Esp32c3,
}

/// A recognized flash-geometry variant, by total size.
#[derive(Copy, Clone, Debug, PartialEq, Eq, Structural)]
pub enum FlashSize {
    Flash1Mb,
    Flash2Mb,
    Flash4Mb,
    Flash8Mb,
    Flash16Mb,
}

/// An unrecognized 32-bit chip magic value, preserved unmodified.
#[derive(Copy, Clone, Debug, PartialEq, Eq, Structural)]
pub struct ChipDetectError(pub u32);

/// An unrecognized single-byte flash identity value, preserved unmodified.
#[derive(Copy, Clone, Debug, PartialEq, Eq, Structural)]
pub struct FlashDetectError(pub u8);

/// A malformed firmware image, described by a static message.
#[derive(Copy, Clone, Debug, PartialEq, Eq)]
pub struct ElfError(pub &'static str);

impl From<u32> for ChipDetectError {
    fn from(err: u32) -> (r: ChipDetectError) {
        ChipDetectError(err)
    }
}

impl vstd::std_specs::convert::FromSpecImpl<u32> for ChipDetectError {
    open spec fn obeys_from_spec() -> bool {
        true
    }

    open spec fn from_spec(err: u32) -> ChipDetectError {
        ChipDetectError(err)
    }
}

impl From<u8> for FlashDetectError {
    fn from(err: u8) -> (r: FlashDetectError) {
        FlashDetectError(err)
    }
}

impl vstd::std_specs::convert::FromSpecImpl<u8> for FlashDetectError {
    open spec fn obeys_from_spec() -> bool {
        true
    }

    open spec fn from_spec(err: u8) -> FlashDetectError {
        FlashDetectError(err)
    }
}

impl From<&'static str> for ElfError {
    fn from(err: &'static str) -> (r: ElfError) {
        ElfError(err)
    }
}

impl vstd::std_specs::convert::FromSpecImpl<&'static str> for ElfError {
    open spec fn obeys_from_spec() -> bool {
        true
    }

    open spec fn from_spec(err: &'static str) -> ElfError {
        ElfError(err)
    }
}

/// The static chip table: which magic values name which chip.
pub open spec fn chip_of_magic(magic: u32) -> Option<Chip> {
    if magic == 0xfff0c101u32 {
        Some(Chip::Esp8266)
    } else if magic == 0x00f01d83u32 {
        Some(Chip::Esp32)
    } else if magic == 0x6921506fu32 || magic == 0x1b31506fu32 {
        Some(Chip::Esp32c3)
    } else {
        None
    }
}

/// The static flash-geometry table: which identity bytes name which size.
pub open spec fn flash_of_id(id: u8) -> Option<FlashSize> {
    if id == 0x14 {
        Some(FlashSize::Flash1Mb)
    } else if id == 0x15 {
        Some(FlashSize::Flash2Mb)
    } else if id == 0x16 {
        Some(FlashSize::Flash4Mb)
    } else if id == 0x17 {
        Some(FlashSize::Flash8Mb)
    } else if id == 0x18 {
        Some(FlashSize::Flash16Mb)
    } else {
        None
    }
}

/// Look the chip magic value up in the static table.
///
/// Succeeds exactly on the recognized magic values; on a miss the raw
/// value is preserved unmodified in the error.
pub fn detect_chip(magic: u32) -> (r: Result<Chip, ChipDetectError>)
    ensures
        chip_of_magic(magic) is Some <==> r is Ok,
        r is Ok ==> r == Ok::<Chip, ChipDetectError>(chip_of_magic(magic)->Some_0),
        r is Err ==> r == Err::<Chip, ChipDetectError>(ChipDetectError(magic)),
{
    match magic {
        0xfff0c101 => Ok(Chip::Esp8266),
        0x00f01d83 => Ok(Chip::Esp32),
        0x6921506f | 0x1b31506f => Ok(Chip::Esp32c3),
        _ => Err(ChipDetectError(magic)),
    }
}

/// Look the flash identity byte up in the static table.
///
/// Succeeds exactly on the recognized identity bytes; on a miss the raw
/// value is preserved unmodified in the error.
pub fn detect_flash_size(id: u8) -> (r: Result<FlashSize, FlashDetectError>)
    ensures
        flash_of_id(id) is Some <==> r is Ok,
        r is Ok ==> r == Ok::<FlashSize, FlashDetectError>(flash_of_id(id)->Some_0),
        r is Err ==> r == Err::<FlashSize, FlashDetectError>(FlashDetectError(id)),
{
    match id {
        0x14 => Ok(FlashSize::Flash1Mb),
        0x15 => Ok(FlashSize::Flash2Mb),
        0x16 => Ok(FlashSize::Flash4Mb),
        0x17 => Ok(FlashSize::Flash8Mb),
        0x18 => Ok(FlashSize::Flash16Mb),
        _ => Err(FlashDetectError(id)),
    }
}

} // verus!

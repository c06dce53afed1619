//! The top-level error taxonomy surfaced to the flashing orchestrator,
//! and the Stage Tagger: two pure transforms that rewrap an
//! already-produced error with the phase it occurred in (connecting or
//! flashing) and with the command that was in flight when it timed out.

use vstd::prelude::*;

use crate::connection::Command;
use crate::connection::ConnectionError;
use crate::connection::TimedOutCommand;
use crate::detect::ChipDetectError;
use crate::detect::ElfError;
use crate::detect::FlashDetectError;
use crate::partition::PartitionTableError;
use crate::status::RomError;

verus! {

/// The top-level failure taxonomy. Exactly one variant is active; the
/// connection-class failures carry their phase in the variant itself.
#[derive(Debug, Clone, PartialEq, Eq)]
pub enum Error {
    /// A connection-class failure during the initial handshake.
    Connection(ConnectionError),
    /// A connection-class failure while flashing the device.
    Flashing(ConnectionError),
    /// The supplied firmware image is not valid.
    InvalidElf(ElfError),
    /// The image cannot run from RAM: it maps segments to ROM addresses.
    ElfNotRamLoadable,
    /// The bootloader itself reported a failure.
    RomError(RomError),
    /// The chip's magic value is not in the static table.
    UnrecognizedChip(ChipDetectError),
    /// The flash identity byte is not in the static table.
    UnsupportedFlash(FlashDetectError),
    /// Connecting to the on-device flash failed.
    FlashConnect,
    /// The partition table is malformed; the diagnostic locates the row.
    MalformedPartitionTable(PartitionTableError),
    /// The chip does not support direct boot.
    UnsupportedDirectBoot,
}

impl From<ElfError> for Error {
    fn from(err: ElfError) -> (r: Error) {
        Error::InvalidElf(err)
    }
}

impl vstd::std_specs::convert::FromSpecImpl<ElfError> for Error {
    open spec fn obeys_from_spec() -> bool {
        true
    }

    open spec fn from_spec(err: ElfError) -> Error {
        Error::InvalidElf(err)
    }
}

impl From<RomError> for Error {
    fn from(err: RomError) -> (r: Error) {
        Error::RomError(err)
    }
}

impl vstd::std_specs::convert::FromSpecImpl<RomError> for Error {
    open spec fn obeys_from_spec() -> bool {
        true
    }

    open spec fn from_spec(err: RomError) -> Error {
        Error::RomError(err)
    }
}

impl From<ChipDetectError> for Error {
    fn from(err: ChipDetectError) -> (r: Error) {
        Error::UnrecognizedChip(err)
    }
}

impl vstd::std_specs::convert::FromSpecImpl<ChipDetectError> for Error {
    open spec fn obeys_from_spec() -> bool {
        true
    }

    open spec fn from_spec(err: ChipDetectError) -> Error {
        Error::UnrecognizedChip(err)
    }
}

impl From<FlashDetectError> for Error {
    fn from(err: FlashDetectError) -> (r: Error) {
        Error::UnsupportedFlash(err)
    }
}

impl vstd::std_specs::convert::FromSpecImpl<FlashDetectError> for Error {
    open spec fn obeys_from_spec() -> bool {
        true
    }

    open spec fn from_spec(err: FlashDetectError) -> Error {
        Error::UnsupportedFlash(err)
    }
}

impl From<PartitionTableError> for Error {
    fn from(err: PartitionTableError) -> (r: Error) {
        Error::MalformedPartitionTable(err)
    }
}

impl vstd::std_specs::convert::FromSpecImpl<PartitionTableError> for Error {
    open spec fn obeys_from_spec() -> bool {
        true
    }

    open spec fn from_spec(err: PartitionTableError) -> Error {
        Error::MalformedPartitionTable(err)
    }
}

/// What marking an error as flashing-phase means: only a handshake-phase
/// connection failure is rewrapped; everything else passes unchanged, so
/// an already-flashing-tagged error is never wrapped twice.
pub open spec fn mark_flashing_spec(e: Error) -> Error {
    match e {
        Error::Connection(inner) => Error::Flashing(inner),
        _ => e,
    }
}

/// What attaching a command means: only a timeout, under either phase
/// tag, has its (possibly absent) command annotation replaced; every
/// other error passes unchanged.
pub open spec fn for_command_spec(e: Error, c: Command) -> Error {
    match e {
        Error::Connection(ConnectionError::Timeout(_)) => Error::Connection(
            ConnectionError::Timeout(TimedOutCommand { command: Some(c) }),
        ),
        Error::Flashing(ConnectionError::Timeout(_)) => Error::Flashing(
            ConnectionError::Timeout(TimedOutCommand { command: Some(c) }),
        ),
        _ => e,
    }
}

/// An error of the timeout class, under either phase tag.
pub open spec fn is_timeout_error(e: Error) -> bool {
    ||| e matches Error::Connection(ConnectionError::Timeout(_))
    ||| e matches Error::Flashing(ConnectionError::Timeout(_))
}

/// Mark a failed outcome as having occurred during the flashing stage.
///
/// A handshake-phase connection failure is rewrapped under the flashing
/// tag; successes and every other error pass through unchanged.
pub fn flashing<T>(res: Result<T, Error>) -> (r: Result<T, Error>)
    ensures
        res matches Err(e) ==> r == Err::<T, Error>(mark_flashing_spec(e)),
        res is Ok ==> r == res,
{
    match res {
        Err(Error::Connection(err)) => Err(Error::Flashing(err)),
        other => other,
    }
}

/// Attach the command from which a failed outcome originates.
///
/// Only timeout-class failures, under either phase tag, have their
/// command annotation replaced; everything else passes unchanged.
pub fn for_command<T>(res: Result<T, Error>, command: Command) -> (r: Result<T, Error>)
    ensures
        res matches Err(e) ==> r == Err::<T, Error>(for_command_spec(e, command)),
        res is Ok ==> r == res,
{
    match res {
        Err(Error::Connection(ConnectionError::Timeout(_))) => Err(
            Error::Connection(ConnectionError::Timeout(TimedOutCommand::from(command))),
        ),
        Err(Error::Flashing(ConnectionError::Timeout(_))) => Err(
            Error::Flashing(ConnectionError::Timeout(TimedOutCommand::from(command))),
        ),
        other => other,
    }
}

/// The remediation hint owed for a connection-level failure, where one
/// exists: none for a serial-layer error or a timeout, whose causes are
/// too varied for one remedy.
pub open spec fn connection_hint(c: ConnectionError) -> Option<Seq<char>> {
    match c {
        ConnectionError::ConnectionFailed => Some(
            "Ensure that the device is connected and the reset and boot pins are not being held down"@,
        ),
        ConnectionError::DeviceNotFound => Some(
            "Ensure that the device is connected and your host recognizes the serial adapter"@,
        ),
        ConnectionError::FramingError => Some(
            "Try hard-resetting the device and try again, if the error persists your rom might be corrupted"@,
        ),
        ConnectionError::OverSizedPacket => Some(
            "Try hard-resetting the device and try again, if the error persists your rom might be corrupted"@,
        ),
        _ => None,
    }
}

/// The remediation hint owed for a surfaced failure, where one exists.
pub open spec fn error_hint(e: Error) -> Option<Seq<char>> {
    match e {
        Error::Connection(c) => connection_hint(c),
        Error::Flashing(c) => connection_hint(c),
        Error::InvalidElf(_) => Some("Try running `cargo clean` and rebuilding the image"@),
        Error::ElfNotRamLoadable => Some(
            "Either build the binary to be all in ram or remove the `--ram` option to load the image to flash"@,
        ),
        Error::UnrecognizedChip(_) => Some(
            "If your chip is supported, try hard-resetting the device and try again"@,
        ),
        _ => None,
    }
}

impl ConnectionError {
    /// The human-readable remediation hint for this failure, if one
    /// exists.
    pub fn remediation_hint(&self) -> (r: Option<&'static str>)
        ensures
            match r {
                Some(h) => connection_hint(*self) == Some(h@),
                None => connection_hint(*self) is None,
            },
    {
        match self {
            ConnectionError::ConnectionFailed => Some(
                "Ensure that the device is connected and the reset and boot pins are not being held down",
            ),
            ConnectionError::DeviceNotFound => Some(
                "Ensure that the device is connected and your host recognizes the serial adapter",
            ),
            ConnectionError::FramingError => Some(
                "Try hard-resetting the device and try again, if the error persists your rom might be corrupted",
            ),
            ConnectionError::OverSizedPacket => Some(
                "Try hard-resetting the device and try again, if the error persists your rom might be corrupted",
            ),
            _ => None,
        }
    }
}

impl Error {
    /// The human-readable remediation hint for this failure, if one
    /// exists.
    pub fn remediation_hint(&self) -> (r: Option<&'static str>)
        ensures
            match r {
                Some(h) => error_hint(*self) == Some(h@),
                None => error_hint(*self) is None,
            },
    {
        match self {
            Error::Connection(c) => c.remediation_hint(),
            Error::Flashing(c) => c.remediation_hint(),
            Error::InvalidElf(_) => Some("Try running `cargo clean` and rebuilding the image"),
            Error::ElfNotRamLoadable => Some(
                "Either build the binary to be all in ram or remove the `--ram` option to load the image to flash",
            ),
            Error::UnrecognizedChip(_) => Some(
                "If your chip is supported, try hard-resetting the device and try again",
            ),
            _ => None,
        }
    }
}

/// Marking an error as flashing-phase is idempotent: a second marking
/// yields exactly the error the first one yielded.
pub proof fn lemma_mark_flashing_idempotent(e: Error)
    ensures
        mark_flashing_spec(mark_flashing_spec(e)) == mark_flashing_spec(e),
{
}

/// Attaching a command only alters timeout-class errors: applied to any
/// other error, the result is the error itself, unchanged.
pub proof fn lemma_for_command_non_timeout_unchanged(e: Error, c: Command)
    ensures
        !is_timeout_error(e) ==> for_command_spec(e, c) == e,
        is_timeout_error(e) ==> is_timeout_error(for_command_spec(e, c)),
{
}

} // verus!

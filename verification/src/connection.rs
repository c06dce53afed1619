//! Transport Error Classifier and the connection-error taxonomy.
//!
//! Low-level I/O outcomes arrive as plain classifications (an
//! errno-equivalent class plus a displayable description) and are mapped
//! into the closed set of [`ConnectionError`] variants. The mapping is
//! total: unknown I/O classes fall through to the generic serial-layer
//! variant rather than being dropped.

use vstd::prelude::*;

use crate::codec::DecodeOutcome;

verus! {

/// A command sent to the device: an identifier plus payload. The name is
/// used only for diagnostics, never for protocol matching.
#[derive(Debug, Clone, PartialEq, Eq)]
pub struct Command {
    /// Protocol identifier of the command.
    pub code: u8,
    /// Human-readable name, for diagnostics only.
    pub name: String,
    /// Payload carried after the identifier.
    pub payload: Vec<u8>,
}

/// The command in flight when a timeout struck, if one is known yet.
#[derive(Debug, Clone, PartialEq, Eq)]
pub struct TimedOutCommand {
    /// Absent only before a command context is known.
    pub command: Option<Command>,
}

impl Default for TimedOutCommand {
    /// A timeout with no command context yet.
    fn default() -> (r: TimedOutCommand)
        ensures
            r.command is None,
    {
        TimedOutCommand { command: None }
    }
}

impl From<Command> for TimedOutCommand {
    fn from(c: Command) -> (r: TimedOutCommand) {
        TimedOutCommand { command: Some(c) }
    }
}

impl vstd::std_specs::convert::FromSpecImpl<Command> for TimedOutCommand {
    open spec fn obeys_from_spec() -> bool {
        true
    }

    open spec fn from_spec(c: Command) -> TimedOutCommand {
        TimedOutCommand { command: Some(c) }
    }
}

impl TimedOutCommand {
    /// The diagnostic prefix naming the stalled command: the command's
    /// name followed by a space, or nothing while no command is known.
    pub fn describe(&self) -> (r: String)
        ensures
            self.command matches Some(c) ==> r@ == c.name@ + " "@,
            self.command is None ==> r@ == Seq::<char>::empty(),
    {
        match &self.command {
            Some(c) => {
                let mut s = c.name.clone();
                vstd::string::StringExecFns::append(&mut s, " ");
                s
            },
            None => String::new(),
        }
    }
}

/// The closed set of connection-level failures.
#[derive(Debug, Clone, PartialEq, Eq)]
pub enum ConnectionError {
    /// An I/O failure of the serial layer, with its cause kept for display.
    Serial(String),
    /// The device did not answer the connection handshake.
    ConnectionFailed,
    /// The serial port (or the device behind it) was not found.
    DeviceNotFound,
    /// A command ran out of time, optionally naming the command in flight.
    Timeout(TimedOutCommand),
    /// A received packet violates the framing convention.
    FramingError,
    /// A received packet exceeds the frame size limit.
    OverSizedPacket,
}

/// The classes of I/O failure that the classifier distinguishes. Every
/// concrete I/O error of the host maps to exactly one of these.
#[derive(Copy, Clone, Debug, PartialEq, Eq, Structural)]
pub enum IoErrorClass {
    /// The operation ran out of time.
    TimedOut,
    /// The named resource does not exist.
    NotFound,
    /// Any other failure class.
    Other,
}

/// The classes of serial-layer failure: either an I/O failure with its
/// class, the absence of the device, or anything else.
#[derive(Copy, Clone, Debug, PartialEq, Eq, Structural)]
pub enum SerialErrorClass {
    Io(IoErrorClass),
    NoDevice,
    Other,
}

/// What classifying an I/O failure yields: timeouts become command-less
/// timeouts, missing resources become device-not-found, and everything
/// else is a serial-layer error keeping the cause for display.
pub open spec fn connection_error_of_io(kind: IoErrorClass, cause: String) -> ConnectionError {
    match kind {
        IoErrorClass::TimedOut => ConnectionError::Timeout(TimedOutCommand { command: None }),
        IoErrorClass::NotFound => ConnectionError::DeviceNotFound,
        IoErrorClass::Other => ConnectionError::Serial(cause),
    }
}

/// What classifying a serial-layer failure yields: an I/O class is
/// classified as such, a missing device becomes device-not-found, and
/// everything else is a serial-layer error keeping the cause.
pub open spec fn connection_error_of_serial(
    kind: SerialErrorClass,
    cause: String,
) -> ConnectionError {
    match kind {
        SerialErrorClass::Io(io) => connection_error_of_io(io, cause),
        SerialErrorClass::NoDevice => ConnectionError::DeviceNotFound,
        SerialErrorClass::Other => ConnectionError::Serial(cause),
    }
}

/// Classify an I/O failure class, keeping its displayable cause.
///
/// Total: every class yields exactly one variant of the closed set, and
/// the timeout variant carries no command yet.
pub fn from_error_kind(kind: IoErrorClass, cause: String) -> (r: ConnectionError)
    ensures
        r == connection_error_of_io(kind, cause),
{
    match kind {
        IoErrorClass::TimedOut => ConnectionError::Timeout(TimedOutCommand::default()),
        IoErrorClass::NotFound => ConnectionError::DeviceNotFound,
        IoErrorClass::Other => ConnectionError::Serial(cause),
    }
}

/// Classify a serial-layer failure class, keeping its displayable cause.
///
/// Total: unknown classes fall through to the serial-layer variant
/// rather than being dropped or panicking.
pub fn from_serial_class(kind: SerialErrorClass, cause: String) -> (r: ConnectionError)
    ensures
        r == connection_error_of_serial(kind, cause),
{
    match kind {
        SerialErrorClass::Io(io) => from_error_kind(io, cause),
        SerialErrorClass::NoDevice => ConnectionError::DeviceNotFound,
        SerialErrorClass::Other => ConnectionError::Serial(cause),
    }
}

/// What a codec outcome contributes to the taxonomy: only the two
/// rejection outcomes map to connection errors.
pub open spec fn connection_error_of_decode(r: DecodeOutcome) -> Option<ConnectionError> {
    match r {
        DecodeOutcome::Malformed => Some(ConnectionError::FramingError),
        DecodeOutcome::TooLarge => Some(ConnectionError::OverSizedPacket),
        _ => None,
    }
}

/// Classify a codec rejection: a framing violation maps to the framing
/// variant, an oversized frame to the oversized variant; the two
/// non-rejection outcomes map to nothing.
pub fn from_decode_outcome(r: &DecodeOutcome) -> (c: Option<ConnectionError>)
    ensures
        c == connection_error_of_decode(*r),
{
    match r {
        DecodeOutcome::Malformed => Some(ConnectionError::FramingError),
        DecodeOutcome::TooLarge => Some(ConnectionError::OverSizedPacket),
        _ => None,
    }
}

} // verus!

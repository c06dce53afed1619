//! The boundary to the serial substrate and its neighbours. The host's
//! I/O errors and the wire codec library's errors arrive here as opaque
//! values and are reduced, behind small trusted items, to the plain
//! classifications the verified Transport Error Classifier consumes;
//! the response reader's faults arrive already told apart by the
//! reading edge. Everything said about the classification itself is
//! proved.

use vstd::prelude::*;

use crate::connection::ConnectionError;
use crate::connection::IoErrorClass;
use crate::connection::from_error_kind;
use crate::error::Error;

verus! {

#[verifier::external_type_specification]
#[verifier::external_body]
pub struct ExIoError(std::io::Error);

#[verifier::external_type_specification]
#[verifier::external_body]
pub struct ExSlipError(slip_codec::SlipError);

/// What the wire codec library reports, with its variants told apart
/// and the embedded I/O error moved out unchanged.
pub enum SlipFault {
    /// The framing convention was violated.
    Framing,
    /// The packet exceeded the codec's buffer.
    Oversized,
    /// The stream ended inside a frame.
    EndOfStream,
    /// Reading the underlying channel failed.
    Read(std::io::Error),
}

/// What the response reader reports: either an I/O failure of the
/// channel, or anything else. The caller at the reading edge tells the
/// reader's variants apart and hands the I/O error through unchanged.
pub enum ReadFault {
    /// Reading or seeking the underlying channel failed.
    Io(std::io::Error),
    /// Any other reader failure.
    Other,
}

/// Relies on std::io::Error::kind: which errno-equivalent class the
/// host reported. Nothing is claimed of the class; the classifier that
/// consumes it is verified for every value.
#[verifier::external_body]
fn io_error_class(e: &std::io::Error) -> IoErrorClass {
    match e.kind() {
        std::io::ErrorKind::TimedOut => IoErrorClass::TimedOut,
        std::io::ErrorKind::NotFound => IoErrorClass::NotFound,
        _ => IoErrorClass::Other,
    }
}

/// Relies on std::io::Error's Display impl, via ToString: a
/// human-readable description of the failure, kept only for display.
#[verifier::external_body]
fn io_error_message(e: &std::io::Error) -> String {
    e.to_string()
}

/// Relies on slip_codec::SlipError's variants: each is told apart, one
/// arm each, and the read error's payload is moved out unchanged.
#[verifier::external_body]
fn slip_fault(e: slip_codec::SlipError) -> SlipFault {
    match e {
        slip_codec::SlipError::FramingError => SlipFault::Framing,
        slip_codec::SlipError::OversizedPacket => SlipFault::Oversized,
        slip_codec::SlipError::EndOfStream => SlipFault::EndOfStream,
        slip_codec::SlipError::ReadError(io) => SlipFault::Read(io),
    }
}

/// What classifying an opaque I/O failure can yield: a timeout that
/// carries no command yet, the absence of the device, or a serial-layer
/// error. Never a framing-level variant.
pub open spec fn is_io_classification(c: ConnectionError) -> bool {
    ||| c matches ConnectionError::Timeout(t) && t.command is None
    ||| c is DeviceNotFound
    ||| c is Serial
}

impl ConnectionError {
    /// Classify a host I/O failure.
    ///
    /// Whatever class the host reported, the result is one of the three
    /// I/O classifications, and a timeout carries no command yet.
    pub fn from_io_error(err: std::io::Error) -> (r: ConnectionError)
        ensures
            is_io_classification(r),
    {
        let class = io_error_class(&err);
        let message = io_error_message(&err);
        from_error_kind(class, message)
    }

    /// Classify a wire-codec failure that has already been told apart.
    ///
    /// The framing-level variants map exactly: a framing violation and
    /// a truncated stream are framing errors, an oversized packet is the
    /// oversized variant; a read failure is classified as an I/O
    /// failure.
    pub fn from_slip_fault(fault: SlipFault) -> (r: ConnectionError)
        ensures
            fault is Framing ==> r == ConnectionError::FramingError,
            fault is EndOfStream ==> r == ConnectionError::FramingError,
            fault is Oversized ==> r == ConnectionError::OverSizedPacket,
            fault is Read ==> is_io_classification(r),
    {
        match fault {
            SlipFault::Framing => ConnectionError::FramingError,
            SlipFault::EndOfStream => ConnectionError::FramingError,
            SlipFault::Oversized => ConnectionError::OverSizedPacket,
            SlipFault::Read(io) => ConnectionError::from_io_error(io),
        }
    }

    /// Classify a wire-codec failure.
    pub fn from_slip_error(err: slip_codec::SlipError) -> (r: ConnectionError)
        ensures
            r is FramingError || r is OverSizedPacket || is_io_classification(r),
    {
        ConnectionError::from_slip_fault(slip_fault(err))
    }

    /// Classify a response-reader failure that has already been told
    /// apart: an I/O failure is classified as such; anything else is a
    /// serial-layer error keeping the given description.
    pub fn from_read_fault(fault: ReadFault, message: String) -> (r: ConnectionError)
        ensures
            fault is Io ==> is_io_classification(r),
            fault is Other ==> r == ConnectionError::Serial(message),
    {
        match fault {
            ReadFault::Io(io) => ConnectionError::from_io_error(io),
            ReadFault::Other => ConnectionError::Serial(message),
        }
    }

}

impl Error {
    /// A host I/O failure, surfaced as a handshake-phase failure.
    pub fn from_io_error(err: std::io::Error) -> (r: Error)
        ensures
            r matches Error::Connection(c) && is_io_classification(c),
    {
        Error::Connection(ConnectionError::from_io_error(err))
    }

    /// A wire-codec failure, surfaced as a handshake-phase failure.
    pub fn from_slip_error(err: slip_codec::SlipError) -> (r: Error)
        ensures
            r matches Error::Connection(c) && (c is FramingError || c is OverSizedPacket
                || is_io_classification(c)),
    {
        Error::Connection(ConnectionError::from_slip_error(err))
    }

}

} // verus!

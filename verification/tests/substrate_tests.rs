use espflash::codec::{decode, DecodeOutcome};
use espflash::connection::{
    from_decode_outcome, from_error_kind, from_serial_class, ConnectionError, IoErrorClass,
    SerialErrorClass,
};
use espflash::error::Error;
use espflash::substrate::ReadFault;

#[test]
fn io_timeouts_become_command_less_timeouts() {
    let io = std::io::Error::new(std::io::ErrorKind::TimedOut, "deadline elapsed");
    match ConnectionError::from_io_error(io) {
        ConnectionError::Timeout(t) => assert!(t.command.is_none()),
        other => panic!("expected a timeout, got {:?}", other),
    }
}

#[test]
fn missing_resources_become_device_not_found() {
    let io = std::io::Error::new(std::io::ErrorKind::NotFound, "no such port");
    assert_eq!(
        ConnectionError::from_io_error(io),
        ConnectionError::DeviceNotFound
    );
}

#[test]
fn other_io_failures_keep_their_cause_for_display() {
    let io = std::io::Error::new(std::io::ErrorKind::PermissionDenied, "port is busy");
    match ConnectionError::from_io_error(io) {
        ConnectionError::Serial(cause) => assert!(cause.contains("port is busy")),
        other => panic!("expected a serial-layer error, got {:?}", other),
    }
}

#[test]
fn slip_errors_map_into_the_framing_taxonomy() {
    assert_eq!(
        ConnectionError::from_slip_error(slip_codec::SlipError::FramingError),
        ConnectionError::FramingError
    );
    assert_eq!(
        ConnectionError::from_slip_error(slip_codec::SlipError::OversizedPacket),
        ConnectionError::OverSizedPacket
    );
    assert_eq!(
        ConnectionError::from_slip_error(slip_codec::SlipError::EndOfStream),
        ConnectionError::FramingError
    );
    let io = std::io::Error::new(std::io::ErrorKind::TimedOut, "deadline elapsed");
    assert!(matches!(
        ConnectionError::from_slip_error(slip_codec::SlipError::ReadError(io)),
        ConnectionError::Timeout(_)
    ));
}

#[test]
fn reader_faults_classify_io_and_fall_through_otherwise() {
    let io = std::io::Error::new(std::io::ErrorKind::NotFound, "gone");
    assert_eq!(
        ConnectionError::from_read_fault(ReadFault::Io(io), String::from("unused")),
        ConnectionError::DeviceNotFound
    );
    assert_eq!(
        ConnectionError::from_read_fault(ReadFault::Other, String::from("bad magic")),
        ConnectionError::Serial(String::from("bad magic"))
    );
}

#[test]
fn serial_classes_map_totally() {
    assert!(matches!(
        from_serial_class(SerialErrorClass::Io(IoErrorClass::TimedOut), String::new()),
        ConnectionError::Timeout(_)
    ));
    assert_eq!(
        from_serial_class(SerialErrorClass::NoDevice, String::new()),
        ConnectionError::DeviceNotFound
    );
    assert_eq!(
        from_serial_class(SerialErrorClass::Other, String::from("odd state")),
        ConnectionError::Serial(String::from("odd state"))
    );
}

#[test]
fn unknown_io_classes_fall_through_to_the_serial_variant() {
    assert_eq!(
        from_error_kind(IoErrorClass::Other, String::from("cause")),
        ConnectionError::Serial(String::from("cause"))
    );
}

#[test]
fn codec_rejections_classify_and_completions_do_not() {
    assert_eq!(
        from_decode_outcome(&DecodeOutcome::Malformed),
        Some(ConnectionError::FramingError)
    );
    assert_eq!(
        from_decode_outcome(&DecodeOutcome::TooLarge),
        Some(ConnectionError::OverSizedPacket)
    );
    assert_eq!(from_decode_outcome(&DecodeOutcome::Incomplete), None);
    let complete = decode(&[0xc0, 0x01, 0xc0]);
    assert_eq!(from_decode_outcome(&complete), None);
}

#[test]
fn io_failures_surface_as_handshake_phase_errors() {
    let io = std::io::Error::new(std::io::ErrorKind::TimedOut, "deadline elapsed");
    assert!(matches!(
        Error::from_io_error(io),
        Error::Connection(ConnectionError::Timeout(_))
    ));
    assert!(matches!(
        Error::from_slip_error(slip_codec::SlipError::FramingError),
        Error::Connection(ConnectionError::FramingError)
    ));
}

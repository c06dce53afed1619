use espflash::codec::{decode, encode, DecodeOutcome, MAX_FRAME_SIZE};

#[test]
fn round_trip_with_delimiter_valued_bytes() {
    let payload = vec![0x00, 0xc0, 0x41, 0xdb, 0xc0, 0xdb, 0x7f];
    let wire = encode(&payload);
    match decode(&wire) {
        DecodeOutcome::Complete {
            payload: decoded,
            consumed,
        } => {
            assert_eq!(decoded, payload);
            assert_eq!(consumed, wire.len());
        }
        other => panic!("expected a complete frame, got {:?}", other),
    }
}

#[test]
fn round_trip_of_plain_and_empty_payloads() {
    for payload in [vec![], vec![0x01], vec![0x10, 0x20, 0x30]] {
        let wire = encode(&payload);
        match decode(&wire) {
            DecodeOutcome::Complete {
                payload: decoded,
                consumed,
            } => {
                assert_eq!(decoded, payload);
                assert_eq!(consumed, wire.len());
            }
            other => panic!("expected a complete frame, got {:?}", other),
        }
    }
}

#[test]
fn encoding_stuffs_delimiter_bytes() {
    let wire = encode(&[0xc0, 0xdb]);
    assert_eq!(wire, vec![0xc0, 0xdb, 0xdc, 0xdb, 0xdd, 0xc0]);
}

#[test]
fn broken_escape_sequence_is_malformed() {
    let stream = [0xc0, 0x01, 0x02, 0xdb, 0x99, 0x03, 0xc0];
    assert_eq!(decode(&stream), DecodeOutcome::Malformed);
}

#[test]
fn stream_not_at_a_frame_boundary_is_malformed() {
    assert_eq!(decode(&[0x41, 0xc0]), DecodeOutcome::Malformed);
}

#[test]
fn oversized_frame_is_rejected_before_it_ends() {
    let mut stream = vec![0xc0];
    stream.extend(std::iter::repeat(0x55u8).take(MAX_FRAME_SIZE + 1));
    // no closing delimiter yet: the size threshold alone rejects it
    assert_eq!(decode(&stream), DecodeOutcome::TooLarge);
    stream.push(0xc0);
    assert_eq!(decode(&stream), DecodeOutcome::TooLarge);
}

#[test]
fn payload_at_the_limit_is_accepted() {
    let payload = vec![0x55u8; MAX_FRAME_SIZE];
    let wire = encode(&payload);
    match decode(&wire) {
        DecodeOutcome::Complete {
            payload: decoded, ..
        } => assert_eq!(decoded.len(), MAX_FRAME_SIZE),
        other => panic!("expected a complete frame, got {:?}", other),
    }
}

#[test]
fn truncated_streams_ask_for_more_bytes() {
    assert_eq!(decode(&[]), DecodeOutcome::Incomplete);
    assert_eq!(decode(&[0xc0]), DecodeOutcome::Incomplete);
    assert_eq!(decode(&[0xc0, 0x01, 0x02]), DecodeOutcome::Incomplete);
    assert_eq!(decode(&[0xc0, 0x01, 0xdb]), DecodeOutcome::Incomplete);
}

#[test]
fn trailing_bytes_after_the_frame_are_not_consumed() {
    let stream = [0xc0, 0x11, 0x22, 0xc0, 0x33, 0x44];
    match decode(&stream) {
        DecodeOutcome::Complete { payload, consumed } => {
            assert_eq!(payload, vec![0x11, 0x22]);
            assert_eq!(consumed, 4);
        }
        other => panic!("expected a complete frame, got {:?}", other),
    }
}

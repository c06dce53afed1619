use espflash::status::{decode_status, RomError};

#[test]
fn known_codes_decode_to_their_reasons() {
    assert_eq!(decode_status(0x05), RomError::InvalidMessage);
    assert_eq!(decode_status(0x06), RomError::FailedToAct);
    assert_eq!(decode_status(0x07), RomError::InvalidCrc);
    assert_eq!(decode_status(0x08), RomError::FlashWriteError);
    assert_eq!(decode_status(0x09), RomError::FlashReadError);
    assert_eq!(decode_status(0x0a), RomError::FlashReadLengthError);
    assert_eq!(decode_status(0x0b), RomError::DeflateError);
}

#[test]
fn from_matches_decode_status() {
    for raw in 0u8..=0xff {
        assert_eq!(RomError::from(raw), decode_status(raw));
    }
}

#[test]
fn all_other_bytes_decode_to_other() {
    for raw in 0x01u8..=0x04 {
        assert_eq!(decode_status(raw), RomError::Other);
    }
    for raw in 0x0cu8..=0xfe {
        assert_eq!(decode_status(raw), RomError::Other);
    }
    assert_eq!(decode_status(0xff), RomError::Other);
}

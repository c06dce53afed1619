use espflash::detect::{
    detect_chip, detect_flash_size, Chip, ChipDetectError, ElfError, FlashDetectError, FlashSize,
};

#[test]
fn unrecognized_magic_fails_with_the_raw_value_preserved() {
    let err = detect_chip(0xDEADBEEF).unwrap_err();
    assert_eq!(err, ChipDetectError(0xDEADBEEF));
    assert_eq!(err.0, 0xDEADBEEF);
}

#[test]
fn known_magic_values_resolve_their_chips() {
    assert_eq!(detect_chip(0xfff0c101), Ok(Chip::Esp8266));
    assert_eq!(detect_chip(0x00f01d83), Ok(Chip::Esp32));
    assert_eq!(detect_chip(0x6921506f), Ok(Chip::Esp32c3));
    assert_eq!(detect_chip(0x1b31506f), Ok(Chip::Esp32c3));
}

#[test]
fn known_flash_ids_resolve_their_sizes() {
    assert_eq!(detect_flash_size(0x14), Ok(FlashSize::Flash1Mb));
    assert_eq!(detect_flash_size(0x15), Ok(FlashSize::Flash2Mb));
    assert_eq!(detect_flash_size(0x16), Ok(FlashSize::Flash4Mb));
    assert_eq!(detect_flash_size(0x17), Ok(FlashSize::Flash8Mb));
    assert_eq!(detect_flash_size(0x18), Ok(FlashSize::Flash16Mb));
}

#[test]
fn unrecognized_flash_id_fails_with_the_raw_value_preserved() {
    assert_eq!(detect_flash_size(0xff), Err(FlashDetectError(0xff)));
    assert_eq!(detect_flash_size(0x00), Err(FlashDetectError(0x00)));
}

#[test]
fn detection_errors_convert_from_raw_values() {
    assert_eq!(ChipDetectError::from(7u32), ChipDetectError(7));
    assert_eq!(FlashDetectError::from(9u8), FlashDetectError(9));
    assert_eq!(ElfError::from("segment out of range"), ElfError("segment out of range"));
}

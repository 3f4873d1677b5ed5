use debug_assistant::firmware::{
    detect_file_kind, firmware_path_verdict, format_for_download, is_supported_file, parse_address,
    validate_firmware_path, AddressError, DownloadFormat, FileKind, FirmwareError,
};

#[test]
fn detect_bin_lowercase() {
    assert!(matches!(detect_file_kind("firmware.bin"), Some(FileKind::Bin)));
}

#[test]
fn detect_hex_lowercase() {
    assert!(matches!(detect_file_kind("firmware.hex"), Some(FileKind::Hex)));
}

#[test]
fn detect_bin_uppercase() {
    assert!(matches!(detect_file_kind("FIRMWARE.BIN"), Some(FileKind::Bin)));
}

#[test]
fn detect_hex_uppercase() {
    assert!(matches!(detect_file_kind("FIRMWARE.HEX"), Some(FileKind::Hex)));
}

#[test]
fn detect_unknown_extension() {
    assert!(detect_file_kind("firmware.elf").is_none());
}

#[test]
fn detect_no_extension() {
    assert!(detect_file_kind("firmware").is_none());
}

#[test]
fn validate_empty_path() {
    assert!(validate_firmware_path("").is_err());
}

#[test]
fn validate_unsupported_extension() {
    let err = validate_firmware_path("build/output.elf").unwrap_err();
    assert!(err.message().contains("Only .bin/.hex"));
}

#[test]
fn validate_file_not_found() {
    let err = validate_firmware_path("/nonexistent/path/fw.bin").unwrap_err();
    assert!(err.message().contains("File not found"));
}

#[test]
fn parse_hex_with_0x_prefix() {
    assert_eq!(parse_address("0x08000000").unwrap(), 0x0800_0000);
}

#[test]
fn parse_hex_with_0x_upper_prefix() {
    assert_eq!(parse_address("0X08000000").unwrap(), 0x0800_0000);
}

#[test]
fn parse_decimal() {
    assert_eq!(parse_address("134217728").unwrap(), 134_217_728);
}

#[test]
fn parse_address_with_whitespace() {
    assert_eq!(parse_address("  0x08000000  ").unwrap(), 0x0800_0000);
}

#[test]
fn parse_empty_address() {
    assert!(parse_address("").is_err());
}

#[test]
fn parse_only_whitespace() {
    assert!(parse_address("   ").is_err());
}

#[test]
fn parse_invalid_hex_digits() {
    assert!(parse_address("0xGGGG").is_err());
}

#[test]
fn parse_invalid_decimal() {
    assert!(parse_address("not_a_number").is_err());
}

#[test]
fn parse_address_error_kinds_and_messages() {
    assert_eq!(parse_address(" \t"), Err(AddressError::Empty));
    assert_eq!(parse_address("0x"), Err(AddressError::InvalidHex));
    assert_eq!(parse_address("-5"), Err(AddressError::InvalidDecimal));
    assert_eq!(parse_address("+42"), Ok(42));
    assert_eq!(parse_address("0x1_0"), Err(AddressError::InvalidHex));
    assert_eq!(parse_address("18446744073709551616"), Err(AddressError::InvalidDecimal));
    assert_eq!(parse_address("0xFFFFFFFFFFFFFFFF"), Ok(u64::MAX));
    assert_eq!(AddressError::Empty.message(), "BIN base address is empty");
    assert_eq!(
        AddressError::InvalidHex.message(),
        "BIN base address must be a valid hex number"
    );
    assert_eq!(
        AddressError::InvalidDecimal.message(),
        "BIN base address must be a valid decimal or hex number"
    );
}

#[test]
fn validate_messages_carry_the_path() {
    let err = validate_firmware_path("a.txt").unwrap_err();
    assert_eq!(err, FirmwareError::UnsupportedFile("a.txt".to_string()));
    assert_eq!(err.message(), "Only .bin/.hex files are supported (got: a.txt)");
    assert_eq!(FirmwareError::EmptyPath.message(), "File path is empty");
    let nf = validate_firmware_path("/nonexistent/x.HEX").unwrap_err();
    assert_eq!(nf.message(), "File not found: /nonexistent/x.HEX");
}

#[test]
fn download_format_follows_extension() {
    assert_eq!(
        format_for_download("fw.BIN", Some(0x0800_0000)),
        Ok(DownloadFormat::Bin { base_address: Some(0x0800_0000) })
    );
    assert_eq!(format_for_download("fw.hex", None), Ok(DownloadFormat::Hex));
    assert_eq!(
        format_for_download("fw.elf", None),
        Err(FirmwareError::UnsupportedFile("fw.elf".to_string()))
    );
    assert!(is_supported_file("x.Hex"));
    assert!(!is_supported_file("x.hexx"));
}

#[test]
fn firmware_error_messages() {
    assert_eq!(
        FirmwareError::HexParse { line: 12 }.message(),
        "HEX parse error at line 12"
    );
    assert_eq!(
        FirmwareError::BelowFlash { address: 0x1234 }.message(),
        "HEX contains address below flash region: 0x00001234 (minimum 0x08000000)"
    );
    assert_eq!(
        FirmwareError::Overlap { first: 0x0800_0000, second: 0x0800_0010 }.message(),
        "HEX contains overlapping ranges near 0x08000000 and 0x08000010"
    );
    assert_eq!(
        FirmwareError::NoData.message(),
        "HEX file does not contain any writable flash data"
    );
    assert_eq!(FirmwareError::EmptyBin.message(), "Firmware file is empty");
    assert_eq!(
        FirmwareError::UnsupportedExtension("a.b".to_string()).message(),
        "Unsupported file extension: a.b"
    );
}

#[test]
fn path_verdict_given_the_disk() {
    assert_eq!(firmware_path_verdict("", true), Err(FirmwareError::EmptyPath));
    assert_eq!(
        firmware_path_verdict("fw.elf", true),
        Err(FirmwareError::UnsupportedFile("fw.elf".to_string()))
    );
    assert_eq!(
        firmware_path_verdict("fw.bin", false),
        Err(FirmwareError::FileNotFound("fw.bin".to_string()))
    );
    assert_eq!(firmware_path_verdict("fw.HEX", true), Ok(()));
}

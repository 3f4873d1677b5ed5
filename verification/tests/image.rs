use debug_assistant::firmware::{FirmwareError, FLASH_BASE};
use debug_assistant::image::{
    hex_image_from_records, load_bin_image, load_firmware_image, load_hex_image, HexRecord,
};

fn record(addr: u16, typ: u8, data: &[u8]) -> String {
    let mut bytes = vec![data.len() as u8, (addr >> 8) as u8, addr as u8, typ];
    bytes.extend_from_slice(data);
    let sum: u8 = bytes.iter().fold(0u8, |a, b| a.wrapping_add(*b));
    bytes.push(0u8.wrapping_sub(sum));
    let mut s = String::from(":");
    for b in bytes {
        s.push_str(&format!("{:02X}", b));
    }
    s
}

fn hex_text(lines: &[String]) -> String {
    let mut s = lines.join("\n");
    s.push('\n');
    s
}

#[test]
fn known_record_encoding() {
    assert_eq!(record(0, 4, &[0x08, 0x00]), ":020000040800F2");
    assert_eq!(record(0, 1, &[]), ":00000001FF");
}

#[test]
fn contiguous_data_is_merged() {
    let text = hex_text(&[
        record(0, 4, &[0x08, 0x00]),
        record(0x0000, 0, &[1, 2, 3, 4]),
        record(0x0004, 0, &[5, 6]),
        record(0, 1, &[]),
    ]);
    let img = load_hex_image(&text).unwrap();
    assert_eq!(img.kind_label, "HEX");
    assert_eq!(img.segments.len(), 1);
    assert_eq!(img.segments[0].address, 0x0800_0000);
    assert_eq!(img.segments[0].data, vec![1, 2, 3, 4, 5, 6]);
    assert_eq!(img.total_bytes, 6);
}

#[test]
fn segments_are_sorted_by_address() {
    let text = hex_text(&[
        record(0, 4, &[0x08, 0x00]),
        record(0x0100, 0, &[9, 9]),
        record(0x0000, 0, &[1]),
        record(0, 1, &[]),
    ]);
    let img = load_hex_image(&text).unwrap();
    let addrs: Vec<u32> = img.segments.iter().map(|s| s.address).collect();
    assert_eq!(addrs, vec![0x0800_0000, 0x0800_0100]);
    assert_eq!(img.segments[0].data, vec![1]);
    assert_eq!(img.segments[1].data, vec![9, 9]);
    assert_eq!(img.total_bytes, 3);
}

#[test]
fn address_below_flash_is_rejected() {
    let text = hex_text(&[record(0x0010, 0, &[1, 2]), record(0, 1, &[])]);
    assert_eq!(
        load_hex_image(&text).unwrap_err(),
        FirmwareError::BelowFlash { address: 0x10 }
    );
}

#[test]
fn segment_address_record_shifts_by_four() {
    let text = hex_text(&[record(0, 2, &[0x10, 0x00]), record(0x0002, 0, &[7])]);
    assert_eq!(
        load_hex_image(&text).unwrap_err(),
        FirmwareError::BelowFlash { address: 0x10002 }
    );
}

#[test]
fn overlapping_data_is_rejected() {
    let text = hex_text(&[
        record(0, 4, &[0x08, 0x00]),
        record(0x0000, 0, &[1, 2, 3, 4]),
        record(0x0002, 0, &[5]),
    ]);
    let err = load_hex_image(&text).unwrap_err();
    assert_eq!(err, FirmwareError::Overlap { first: 0x0800_0000, second: 0x0800_0002 });
    assert_eq!(
        err.message(),
        "HEX contains overlapping ranges near 0x08000000 and 0x08000002"
    );
}

#[test]
fn parse_error_reports_the_record_number() {
    let text = format!("{}\n:zz\n", record(0, 4, &[0x08, 0x00]));
    let err = load_hex_image(&text).unwrap_err();
    assert_eq!(err, FirmwareError::HexParse { line: 2 });
    assert_eq!(err.message(), "HEX parse error at line 2");
}

#[test]
fn file_without_data_is_rejected() {
    assert_eq!(
        load_hex_image(":00000001FF\n").unwrap_err(),
        FirmwareError::NoData
    );
}

#[test]
fn records_after_end_of_file_are_ignored() {
    let text = hex_text(&[
        record(0, 4, &[0x08, 0x00]),
        record(0x0000, 0, &[1]),
        record(0, 1, &[]),
        record(0x0100, 0, &[2]),
    ]);
    let img = load_hex_image(&text).unwrap();
    assert_eq!(img.segments.len(), 1);
    assert_eq!(img.total_bytes, 1);
}

#[test]
fn empty_data_records_are_skipped() {
    let text = hex_text(&[record(0x0000, 0, &[]), record(0, 4, &[0x08, 0x00]), record(0, 0, &[3])]);
    let img = load_hex_image(&text).unwrap();
    assert_eq!(img.segments.len(), 1);
    assert_eq!(img.segments[0].data, vec![3]);
}

#[test]
fn image_from_records_directly() {
    let records = vec![
        Some(HexRecord::ExtendedLinearAddress(0x0800)),
        Some(HexRecord::Data { offset: 0x20, value: vec![1, 2] }),
        Some(HexRecord::Data { offset: 0x10, value: vec![3] }),
        Some(HexRecord::Data { offset: 0x22, value: vec![4] }),
        Some(HexRecord::StartLinearAddress(0x0800_0000)),
    ];
    let img = hex_image_from_records(&records).unwrap();
    let addrs: Vec<u32> = img.segments.iter().map(|s| s.address).collect();
    assert_eq!(addrs, vec![0x0800_0010, 0x0800_0020, 0x0800_0022]);
    assert_eq!(img.segments[1].data, vec![1, 2]);
    assert_eq!(img.segments[2].data, vec![4]);
    assert_eq!(img.total_bytes, 4);
    let bad = vec![Some(HexRecord::EndOfFile), None];
    assert_eq!(hex_image_from_records(&bad).unwrap_err(), FirmwareError::HexParse { line: 2 });
}

#[test]
fn equal_addresses_overlap() {
    let records = vec![
        Some(HexRecord::ExtendedLinearAddress(0x0800)),
        Some(HexRecord::Data { offset: 0x40, value: vec![1] }),
        Some(HexRecord::Data { offset: 0x00, value: vec![2] }),
        Some(HexRecord::Data { offset: 0x40, value: vec![3] }),
    ];
    assert_eq!(
        hex_image_from_records(&records).unwrap_err(),
        FirmwareError::Overlap { first: 0x0800_0040, second: 0x0800_0040 }
    );
}

#[test]
fn bin_image_is_placed_at_flash_base() {
    let img = load_bin_image(vec![1, 2, 3]).unwrap();
    assert_eq!(img.kind_label, "BIN");
    assert_eq!(img.segments.len(), 1);
    assert_eq!(img.segments[0].address, FLASH_BASE);
    assert_eq!(img.total_bytes, 3);
    assert_eq!(load_bin_image(vec![]).unwrap_err(), FirmwareError::EmptyBin);
}

#[test]
fn load_firmware_image_dispatches_on_extension() {
    assert_eq!(
        load_firmware_image("fw.bin", None).unwrap_err(),
        FirmwareError::ReadFailed
    );
    assert_eq!(
        load_firmware_image("fw.HEX", None).unwrap_err(),
        FirmwareError::HexReadFailed
    );
    assert_eq!(
        load_firmware_image("fw.hex", Some(vec![0xff, 0xfe])).unwrap_err(),
        FirmwareError::HexReadFailed
    );
    assert_eq!(
        load_firmware_image("fw.elf", Some(vec![1])).unwrap_err(),
        FirmwareError::UnsupportedExtension("fw.elf".to_string())
    );
    let img = load_firmware_image("FW.Bin", Some(vec![5; 10])).unwrap();
    assert_eq!(img.total_bytes, 10);
    let text = hex_text(&[record(0, 4, &[0x08, 0x01]), record(0, 0, &[1, 2])]);
    let img = load_firmware_image("x.hex", Some(text.into_bytes())).unwrap();
    assert_eq!(img.segments[0].address, 0x0801_0000);
}

//! Firmware files: recognising `.bin`/`.hex` paths, checking a chosen path,
//! parsing a BIN base address, and building the image that gets flashed.

use vstd::prelude::*;
use crate::numfmt::{decimal_text, hex_text, parse_u64_in, parse_u64_radix, push_decimal, push_hex, trim, trim_range};

verus! {

/// Start of the STM32 internal flash.
pub const FLASH_BASE: u32 = 0x0800_0000;

/// The two firmware file formats the flasher accepts.
#[derive(Debug, Clone, Copy, PartialEq, Eq, Structural)]
pub enum FileKind {
    Bin,
    Hex,
}

/// How a firmware file is handed to a debug probe download: a raw binary at
/// an optional base address, or an Intel HEX file that carries its addresses.
#[derive(Debug, Clone, Copy, PartialEq, Eq, Structural)]
pub enum DownloadFormat {
    Bin { base_address: Option<u64> },
    Hex,
}

/// A contiguous run of bytes to write at `address`.
#[derive(Debug, Clone)]
pub struct FirmwareSegment {
    pub address: u32,
    pub data: Vec<u8>,
}

/// A parsed firmware file: its kind (`"BIN"` or `"HEX"`), its segments and
/// the number of bytes they hold together.
#[derive(Debug, Clone)]
pub struct FirmwareImage {
    pub kind_label: &'static str,
    pub segments: Vec<FirmwareSegment>,
    pub total_bytes: usize,
}

/// Why a firmware path or file was rejected.
#[derive(Debug, Clone, PartialEq, Eq)]
pub enum FirmwareError {
    EmptyPath,
    UnsupportedFile(String),
    FileNotFound(String),
    UnsupportedExtension(String),
    ReadFailed,
    HexReadFailed,
    EmptyBin,
    HexParse { line: usize },
    BelowFlash { address: u32 },
    NoData,
    Overlap { first: u32, second: u32 },
}

/// Why a BIN base address was rejected.
#[derive(Debug, Clone, Copy, PartialEq, Eq, Structural)]
pub enum AddressError {
    Empty,
    InvalidHex,
    InvalidDecimal,
}

/// `char::to_ascii_lowercase`.
pub open spec fn ascii_lower(c: char) -> char {
    if 'A' <= c <= 'Z' {
        ((c as u32) + 32) as char
    } else {
        c
    }
}

/// The path, lower-cased in ASCII, ends with `suffix` (itself lower case).
pub open spec fn ends_with_ci(path: Seq<char>, suffix: Seq<char>) -> bool {
    path.len() >= suffix.len() && forall|i: int|
        0 <= i < suffix.len() ==> ascii_lower(#[trigger] path[path.len() - suffix.len() + i])
            == suffix[i]
}

/// The kind of firmware file a path names, judged by its extension.
pub open spec fn file_kind_of(path: Seq<char>) -> Option<FileKind> {
    if ends_with_ci(path, seq!['.', 'b', 'i', 'n']) {
        Some(FileKind::Bin)
    } else if ends_with_ci(path, seq!['.', 'h', 'e', 'x']) {
        Some(FileKind::Hex)
    } else {
        None
    }
}

fn ends_with_ci_exec(path: &str, suffix: &str) -> (b: bool)
    ensures
        b == ends_with_ci(path@, suffix@),
{
    let n = path.unicode_len();
    let m = suffix.unicode_len();
    if n < m {
        return false;
    }
    let mut i: usize = 0;
    while i < m
        invariant
            n == path@.len(),
            m == suffix@.len(),
            m <= n,
            i <= m,
            forall|j: int| 0 <= j < i ==> ascii_lower(#[trigger] path@[n - m + j]) == suffix@[j],
        decreases m - i,
    {
        let c = path.get_char(n - m + i);
        let lower = if 'A' <= c && c <= 'Z' {
            ((c as u32) + 32) as u8 as char
        } else {
            c
        };
        if lower != suffix.get_char(i) {
            return false;
        }
        i = i + 1;
    }
    true
}

/// Kind of firmware file `file_path` names: `.bin` or `.hex` in any letter case.
pub fn detect_file_kind(file_path: &str) -> (k: Option<FileKind>)
    ensures
        k == file_kind_of(file_path@),
{
    if ends_with_ci_exec(file_path, ".bin") {
        proof {
            reveal_strlit(".bin");
        }
        Some(FileKind::Bin)
    } else if ends_with_ci_exec(file_path, ".hex") {
        proof {
            reveal_strlit(".bin");
            reveal_strlit(".hex");
        }
        Some(FileKind::Hex)
    } else {
        proof {
            reveal_strlit(".bin");
            reveal_strlit(".hex");
        }
        None
    }
}

/// Whether `file_path` names a `.bin` or `.hex` file (any letter case).
pub fn is_supported_file(file_path: &str) -> (b: bool)
    ensures
        b == file_kind_of(file_path@) is Some,
{
    detect_file_kind(file_path).is_some()
}

/// `e` reports that `path` is not a `.bin`/`.hex` file.
pub open spec fn unsupported_file_error(e: FirmwareError, path: Seq<char>) -> bool {
    e is UnsupportedFile && e->UnsupportedFile_0@ == path
}

/// `e` reports that nothing exists at `path`.
pub open spec fn file_not_found_error(e: FirmwareError, path: Seq<char>) -> bool {
    e is FileNotFound && e->FileNotFound_0@ == path
}

/// `std::path::Path::exists`: whether something exists at `path` on disk.
/// Nothing is stated of the answer: it depends on the file system.
#[verifier::external_body]
fn path_exists(path: &str) -> bool {
    std::path::Path::new(path).exists()
}

/// The verdict on a firmware path, given whether something exists there:
/// empty, not a `.bin`/`.hex` file, not found, or fine, checked in that
/// order.
pub fn firmware_path_verdict(file_path: &str, exists: bool) -> (r: Result<(), FirmwareError>)
    ensures
        file_path@.len() == 0 ==> r == Err::<(), FirmwareError>(FirmwareError::EmptyPath),
        file_path@.len() > 0 && file_kind_of(file_path@) is None ==> (r is Err
            && unsupported_file_error(r->Err_0, file_path@)),
        file_path@.len() > 0 && file_kind_of(file_path@) is Some && !exists ==> (r is Err
            && file_not_found_error(r->Err_0, file_path@)),
        file_path@.len() > 0 && file_kind_of(file_path@) is Some && exists ==> r is Ok,
{
    if file_path.is_empty() {
        return Err(FirmwareError::EmptyPath);
    }
    if detect_file_kind(file_path).is_none() {
        return Err(FirmwareError::UnsupportedFile(String::from_str(file_path)));
    }
    if !exists {
        return Err(FirmwareError::FileNotFound(String::from_str(file_path)));
    }
    Ok(())
}

/// Checks that a firmware path is non-empty, names a `.bin`/`.hex` file and
/// exists. Only the last check depends on the disk, which is asked only
/// when the first two pass.
pub fn validate_firmware_path(file_path: &str) -> (r: Result<(), FirmwareError>)
    ensures
        file_path@.len() == 0 ==> r == Err::<(), FirmwareError>(FirmwareError::EmptyPath),
        file_path@.len() > 0 && file_kind_of(file_path@) is None ==> (r is Err
            && unsupported_file_error(r->Err_0, file_path@)),
        file_path@.len() > 0 && file_kind_of(file_path@) is Some ==> (r is Ok || (r is Err
            && file_not_found_error(r->Err_0, file_path@))),
{
    if file_path.is_empty() || detect_file_kind(file_path).is_none() {
        return firmware_path_verdict(file_path, false);
    }
    let exists = path_exists(file_path);
    firmware_path_verdict(file_path, exists)
}

/// The value a BIN base address text stands for: surrounding whitespace is
/// ignored, a `0x`/`0X` prefix selects hexadecimal, decimal otherwise.
pub open spec fn address_value(input: Seq<char>) -> Result<u64, AddressError> {
    let t = trim(input);
    if t.len() == 0 {
        Err(AddressError::Empty)
    } else if t.len() >= 2 && t[0] == '0' && (t[1] == 'x' || t[1] == 'X') {
        match parse_u64_radix(t.skip(2), 16) {
            Some(v) => Ok(v),
            None => Err(AddressError::InvalidHex),
        }
    } else {
        match parse_u64_radix(t, 10) {
            Some(v) => Ok(v),
            None => Err(AddressError::InvalidDecimal),
        }
    }
}

/// Parses a BIN base address such as `0x08000000` or `134217728`.
pub fn parse_address(input: &str) -> (r: Result<u64, AddressError>)
    ensures
        r == address_value(input@),
{
    let (start, end) = trim_range(input);
    if start == end {
        return Err(AddressError::Empty);
    }
    let ghost t = input@.subrange(start as int, end as int);
    if end - start >= 2 && input.get_char(start) == '0' && (input.get_char(start + 1) == 'x'
        || input.get_char(start + 1) == 'X') {
        proof {
            assert(input@.subrange(start + 2, end as int) =~= t.skip(2));
        }
        match parse_u64_in(input, start + 2, end, 16) {
            Some(v) => Ok(v),
            None => Err(AddressError::InvalidHex),
        }
    } else {
        match parse_u64_in(input, start, end, 10) {
            Some(v) => Ok(v),
            None => Err(AddressError::InvalidDecimal),
        }
    }
}

/// The probe download format for a firmware path.
pub open spec fn download_format_of(path: Seq<char>, base_address: Option<u64>) -> Option<
    DownloadFormat,
> {
    match file_kind_of(path) {
        Some(FileKind::Bin) => Some(DownloadFormat::Bin { base_address }),
        Some(FileKind::Hex) => Some(DownloadFormat::Hex),
        None => None,
    }
}

/// Picks the probe download format for `file_path`: BIN files are written at
/// `base_address`, HEX files carry their own addresses.
pub fn format_for_download(file_path: &str, base_address: Option<u64>) -> (r: Result<
    DownloadFormat,
    FirmwareError,
>)
    ensures
        download_format_of(file_path@, base_address) matches Some(f) ==> r == Ok::<
            DownloadFormat,
            FirmwareError,
        >(f),
        download_format_of(file_path@, base_address) is None ==> (r is Err
            && unsupported_file_error(r->Err_0, file_path@)),
{
    match detect_file_kind(file_path) {
        Some(FileKind::Bin) => Ok(DownloadFormat::Bin { base_address }),
        Some(FileKind::Hex) => Ok(DownloadFormat::Hex),
        None => Err(FirmwareError::UnsupportedFile(String::from_str(file_path))),
    }
}


/// The message shown for a firmware error.
pub open spec fn firmware_error_text(e: FirmwareError) -> Seq<char> {
    match e {
        FirmwareError::EmptyPath => "File path is empty"@,
        FirmwareError::UnsupportedFile(p) => "Only .bin/.hex files are supported (got: "@ + p@
            + ")"@,
        FirmwareError::FileNotFound(p) => "File not found: "@ + p@,
        FirmwareError::UnsupportedExtension(p) => "Unsupported file extension: "@ + p@,
        FirmwareError::ReadFailed => "Failed to read firmware file"@,
        FirmwareError::HexReadFailed => "Failed to read HEX file"@,
        FirmwareError::EmptyBin => "Firmware file is empty"@,
        FirmwareError::HexParse { line } => "HEX parse error at line "@ + decimal_text(line as nat),
        FirmwareError::BelowFlash { address } => "HEX contains address below flash region: 0x"@
            + hex_text(address as nat, 8) + " (minimum 0x"@ + hex_text(FLASH_BASE as nat, 8)
            + ")"@,
        FirmwareError::NoData => "HEX file does not contain any writable flash data"@,
        FirmwareError::Overlap { first, second } => "HEX contains overlapping ranges near 0x"@
            + hex_text(first as nat, 8) + " and 0x"@ + hex_text(second as nat, 8),
    }
}

impl FirmwareError {
    /// The error's message.
    pub fn message(&self) -> (m: String)
        ensures
            m@ == firmware_error_text(*self),
    {
        match self {
            FirmwareError::EmptyPath => String::from_str("File path is empty"),
            FirmwareError::UnsupportedFile(p) => {
                let mut m = String::from_str("Only .bin/.hex files are supported (got: ");
                m.append(p.as_str());
                m.append(")");
                m
            },
            FirmwareError::FileNotFound(p) => {
                let mut m = String::from_str("File not found: ");
                m.append(p.as_str());
                m
            },
            FirmwareError::UnsupportedExtension(p) => {
                let mut m = String::from_str("Unsupported file extension: ");
                m.append(p.as_str());
                m
            },
            FirmwareError::ReadFailed => String::from_str("Failed to read firmware file"),
            FirmwareError::HexReadFailed => String::from_str("Failed to read HEX file"),
            FirmwareError::EmptyBin => String::from_str("Firmware file is empty"),
            FirmwareError::HexParse { line } => {
                let mut m = String::from_str("HEX parse error at line ");
                push_decimal(&mut m, *line as u64);
                m
            },
            FirmwareError::BelowFlash { address } => {
                let mut m = String::from_str("HEX contains address below flash region: 0x");
                push_hex(&mut m, *address as u64, 8);
                m.append(" (minimum 0x");
                push_hex(&mut m, FLASH_BASE as u64, 8);
                m.append(")");
                m
            },
            FirmwareError::NoData => String::from_str(
                "HEX file does not contain any writable flash data",
            ),
            FirmwareError::Overlap { first, second } => {
                let mut m = String::from_str("HEX contains overlapping ranges near 0x");
                push_hex(&mut m, *first as u64, 8);
                m.append(" and 0x");
                push_hex(&mut m, *second as u64, 8);
                m
            },
        }
    }
}

/// The message shown for a rejected BIN base address.
pub open spec fn address_error_text(e: AddressError) -> Seq<char> {
    match e {
        AddressError::Empty => "BIN base address is empty"@,
        AddressError::InvalidHex => "BIN base address must be a valid hex number"@,
        AddressError::InvalidDecimal => "BIN base address must be a valid decimal or hex number"@,
    }
}

impl AddressError {
    /// The error's message.
    pub fn message(&self) -> (m: String)
        ensures
            m@ == address_error_text(*self),
    {
        match self {
            AddressError::Empty => String::from_str("BIN base address is empty"),
            AddressError::InvalidHex => String::from_str("BIN base address must be a valid hex number"),
            AddressError::InvalidDecimal => String::from_str(
                "BIN base address must be a valid decimal or hex number",
            ),
        }
    }
}

} // verus!

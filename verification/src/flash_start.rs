//! Checking a flashing form before an operation starts, and collecting
//! what the operation needs from it.

use vstd::prelude::*;
use std::sync::Arc;
use std::sync::atomic::AtomicBool;
use crate::firmware::{
    AddressError, DownloadFormat, FileKind, FirmwareError, address_value, detect_file_kind,
    download_format_of, file_kind_of, file_not_found_error, format_for_download, parse_address,
    unsupported_file_error, validate_firmware_path,
};
use crate::flash_state::{FlasherState, FlasherView, UsartIspView, no_ports_text, speed_presets};
use crate::flashing::{FlasherMethod, IspBootMode, SwdConnectMode};
use crate::isp_session::isp_baud_presets;
use crate::numfmt::{decimal_text, push_decimal, trim, trimmed};

verus! {

/// Why an operation could not start.
#[derive(Debug, Clone, PartialEq, Eq)]
pub enum StartError {
    NoPortSelected,
    NoPortsAvailable,
    EmptyChipName,
    Firmware(FirmwareError),
    Address(AddressError),
}

/// The message shown for a start error.
pub open spec fn start_error_text(e: StartError) -> Seq<char> {
    match e {
        StartError::NoPortSelected => "No serial port selected"@,
        StartError::NoPortsAvailable => "No serial ports available on this system"@,
        StartError::EmptyChipName => "Chip name is empty (example: STM32F103C8)"@,
        StartError::Firmware(f) => crate::firmware::firmware_error_text(f),
        StartError::Address(a) => crate::firmware::address_error_text(a),
    }
}

impl StartError {
    /// The error's message.
    pub fn message(&self) -> (m: String)
        ensures
            m@ == start_error_text(*self),
    {
        match self {
            StartError::NoPortSelected => String::from_str("No serial port selected"),
            StartError::NoPortsAvailable => String::from_str("No serial ports available on this system"),
            StartError::EmptyChipName => String::from_str("Chip name is empty (example: STM32F103C8)"),
            StartError::Firmware(e) => e.message(),
            StartError::Address(e) => e.message(),
        }
    }
}

/// What a USART ISP operation is started with.
pub struct IspFlashRequest {
    pub port_name: String,
    pub baud: u32,
    pub file_path: String,
    pub boot_mode: IspBootMode,
}

/// What a JTAG or SWD operation is started with.
pub struct ProbeFlashRequest {
    pub probe_idx: usize,
    pub chip_name: String,
    pub file_path: String,
    pub format: DownloadFormat,
    pub speed_khz: u32,
    /// How SWD attaches (`None` for JTAG).
    pub connect_mode: Option<SwdConnectMode>,
    pub verify: bool,
    pub reset_run: bool,
}

/// The outcome of checking a firmware path that names a `.bin`/`.hex`
/// file: fine, or nothing exists there (which only the disk can tell).
pub open spec fn path_checked(r: Result<(), FirmwareError>, path: Seq<char>) -> bool {
    if path.len() == 0 {
        r == Err::<(), FirmwareError>(FirmwareError::EmptyPath)
    } else if file_kind_of(path) is None {
        r is Err && unsupported_file_error(r->Err_0, path)
    } else {
        r is Ok || (r is Err && file_not_found_error(r->Err_0, path))
    }
}

/// The serial port selected in the USART ISP form `u`: none when the
/// selection is outside the list or is the "(no ports found)" entry.
pub open spec fn selected_port(u: UsartIspView) -> Option<Seq<char>> {
    if u.port_idx < u.port_list.len() && u.port_list[u.port_idx as int] != no_ports_text() {
        Some(u.port_list[u.port_idx as int])
    } else {
        None
    }
}

/// What checking the USART ISP form `s` gives: the first problem found,
/// or the operation on the selected port at the selected preset rate with
/// the trimmed firmware path and the boot mode.
pub open spec fn isp_outcome(s: FlasherView, r: Result<IspFlashRequest, StartError>) -> bool {
    let u = s.usart_isp;
    if u.port_list.len() == 0 {
        r == Err::<IspFlashRequest, StartError>(StartError::NoPortSelected)
    } else if u.port_list[u.port_idx as int] == no_ports_text() {
        r == Err::<IspFlashRequest, StartError>(StartError::NoPortsAvailable)
    } else {
        let path = trim(u.file_path);
        match r {
            Ok(req) => {
                &&& path_checked(Ok(()), path)
                &&& req.port_name@ == u.port_list[u.port_idx as int]
                &&& req.baud == isp_baud_presets()[u.baud_idx as int]
                &&& req.file_path@ == path
                &&& req.boot_mode == u.boot_mode
            },
            Err(StartError::Firmware(e)) => path_checked(Err(e), path),
            Err(_) => false,
        }
    }
}

/// What checking the JTAG or SWD form of `s` (whichever protocol is open)
/// gives: the first problem found, or the operation with the trimmed chip
/// name and path, the download format, and the form's settings.
pub open spec fn probe_outcome(s: FlasherView, r: Result<ProbeFlashRequest, StartError>) -> bool {
    let jtag = s.method == FlasherMethod::Jtag;
    let chip = trim(if jtag { s.jtag.chip_name } else { s.swd.chip_name });
    let path = trim(if jtag { s.jtag.file_path } else { s.swd.file_path });
    let base_text = if jtag { s.jtag.bin_base_address } else { s.swd.bin_base_address };
    if chip.len() == 0 {
        r == Err::<ProbeFlashRequest, StartError>(StartError::EmptyChipName)
    } else {
        match r {
            Ok(req) => {
                &&& path_checked(Ok(()), path)
                &&& req.chip_name@ == chip
                &&& req.file_path@ == path
                &&& (file_kind_of(path) == Some(FileKind::Bin) ==> address_value(base_text) is Ok
                    && Some(req.format) == download_format_of(path, Some(address_value(base_text)->Ok_0)))
                &&& (file_kind_of(path) == Some(FileKind::Hex) ==> req.format == DownloadFormat::Hex)
                &&& req.probe_idx == (if jtag { s.jtag.probe_idx } else { s.swd.probe_idx })
                &&& req.speed_khz == speed_presets()[(if jtag { s.jtag.speed_idx } else { s.swd.speed_idx }) as int]
                &&& req.connect_mode == (if jtag { None } else { Some(s.swd.connect_mode) })
                &&& req.verify == (if jtag { s.jtag.verify } else { s.swd.verify })
                &&& req.reset_run == (if jtag { s.jtag.reset_run } else { s.swd.reset_run })
            },
            Err(StartError::Firmware(e)) => path_checked(Err(e), path),
            Err(StartError::Address(e)) => path_checked(Ok(()), path)
                && file_kind_of(path) == Some(FileKind::Bin) && address_value(base_text) == Err::<u64, AddressError>(e),
            Err(_) => false,
        }
    }
}

impl FlasherState {
    /// The serial port selected in the USART ISP form, unless it is the
    /// "(no ports found)" placeholder.
    pub fn selected_port_name(&self) -> (r: Option<String>)
        ensures
            match r {
                Some(name) => selected_port(self@.usart_isp) == Some(name@),
                None => selected_port(self@.usart_isp) is None,
            },
    {
        if self.usart_isp.port_idx >= self.usart_isp.port_list.len() {
            return None;
        }
        let name = self.usart_isp.port_list[self.usart_isp.port_idx].clone();
        let placeholder = String::from_str("(no ports found)");
        if name == placeholder {
            None
        } else {
            Some(name)
        }
    }

    /// Checks the USART ISP form: a real serial port must be selected and
    /// the trimmed firmware path must name an existing `.bin`/`.hex` file.
    pub fn isp_flash_request(&self) -> (r: Result<IspFlashRequest, StartError>)
        requires
            self.wf(),
            self.usart_isp.port_list@.len() > 0 ==> self.usart_isp.port_idx < self.usart_isp.port_list@.len(),
        ensures
            isp_outcome(self@, r),
    {
        if self.usart_isp.port_list.len() == 0 {
            return Err(StartError::NoPortSelected);
        }
        let port_name = self.usart_isp.port_list[self.usart_isp.port_idx].clone();
        let placeholder = String::from_str("(no ports found)");
        if port_name == placeholder {
            return Err(StartError::NoPortsAvailable);
        }
        let file_path = trimmed(self.usart_isp.file_path.as_str());
        match validate_firmware_path(file_path.as_str()) {
            Ok(()) => {},
            Err(e) => {
                return Err(StartError::Firmware(e));
            },
        }
        let baud = self.isp_baud();
        Ok(IspFlashRequest { port_name, baud, file_path, boot_mode: self.usart_isp.boot_mode })
    }

    /// Checks the JTAG or SWD form (whichever protocol is open): the trimmed
    /// chip name must not be empty, the trimmed firmware path must name an
    /// existing `.bin`/`.hex` file, and a BIN file needs a valid base
    /// address.
    pub fn probe_flash_request(&self) -> (r: Result<ProbeFlashRequest, StartError>)
        requires
            self.wf(),
            self.method != FlasherMethod::UsartIsp,
        ensures
            probe_outcome(self@, r),
    {
        let jtag = self.method == FlasherMethod::Jtag;
        let chip_name = if jtag {
            trimmed(self.jtag.chip_name.as_str())
        } else {
            trimmed(self.swd.chip_name.as_str())
        };
        if chip_name.as_str().unicode_len() == 0 {
            return Err(StartError::EmptyChipName);
        }
        let file_path = if jtag {
            trimmed(self.jtag.file_path.as_str())
        } else {
            trimmed(self.swd.file_path.as_str())
        };
        match validate_firmware_path(file_path.as_str()) {
            Ok(()) => {},
            Err(e) => {
                return Err(StartError::Firmware(e));
            },
        }
        let kind = detect_file_kind(file_path.as_str());
        let base = if kind == Some(FileKind::Bin) {
            let text = if jtag {
                self.jtag.bin_base_address.as_str()
            } else {
                self.swd.bin_base_address.as_str()
            };
            match parse_address(text) {
                Ok(a) => Some(a),
                Err(e) => {
                    return Err(StartError::Address(e));
                },
            }
        } else {
            None
        };
        let format = match format_for_download(file_path.as_str(), base) {
            Ok(f) => f,
            Err(e) => {
                return Err(StartError::Firmware(e));
            },
        };
        if jtag {
            Ok(ProbeFlashRequest {
                probe_idx: self.jtag.probe_idx,
                chip_name,
                file_path,
                format,
                speed_khz: self.jtag_speed_khz(),
                connect_mode: None,
                verify: self.jtag.verify,
                reset_run: self.jtag.reset_run,
            })
        } else {
            Ok(ProbeFlashRequest {
                probe_idx: self.swd.probe_idx,
                chip_name,
                file_path,
                format,
                speed_khz: self.swd_speed_khz(),
                connect_mode: Some(self.swd.connect_mode),
                verify: self.swd.verify,
                reset_run: self.swd.reset_run,
            })
        }
    }

    /// Keeps the stop flag of the operation just started.
    pub fn arm_stop_flag(&mut self, flag: Arc<AtomicBool>)
        ensures
            final(self)@ == (FlasherView { has_stop_flag: true, ..old(self)@ }),
            final(self).usart_isp == old(self).usart_isp,
            final(self).jtag == old(self).jtag,
            final(self).swd == old(self).swd,
    {
        self.stop_flag = Some(flag);
    }
}

/// The message when the probe chosen in the form is gone.
pub open spec fn probe_gone_text(probe_idx: nat, found: nat) -> Seq<char> {
    "Selected probe is no longer available (index "@ + decimal_text(probe_idx) + ", found "@
        + decimal_text(found) + ")"@
}

/// Checks that the probe at `probe_idx` is still among the `found` probes
/// attached when the operation starts.
pub fn check_probe_index(probe_idx: usize, found: usize) -> (r: Result<(), String>)
    ensures
        probe_idx < found ==> r is Ok,
        probe_idx >= found ==> r is Err && r->Err_0@ == probe_gone_text(probe_idx as nat, found as nat),
{
    if probe_idx < found {
        return Ok(());
    }
    let mut m = String::from_str("Selected probe is no longer available (index ");
    push_decimal(&mut m, probe_idx as u64);
    m.append(", found ");
    push_decimal(&mut m, found as u64);
    m.append(")");
    Err(m)
}

/// Where a saved log goes: `logs/<kind>-<stamp>.log`.
pub open spec fn log_file_text(kind: Seq<char>, stamp: Seq<char>) -> Seq<char> {
    "logs/"@ + kind + "-"@ + stamp + ".log"@
}

/// The path a log of `kind` (`serial` or `flasher`) is saved to, for the
/// local time `stamp` (`%Y%m%d-%H%M%S`); `None` when the log is blank and
/// nothing is saved.
pub fn log_file_path(kind: &str, stamp: &str, text: &str) -> (p: Option<String>)
    ensures
        trim(text@).len() == 0 ==> p is None,
        trim(text@).len() > 0 ==> p is Some && p->0@ == log_file_text(kind@, stamp@),
{
    if crate::numfmt::is_blank(text) {
        return None;
    }
    let mut p = String::from_str("logs/");
    p.append(kind);
    p.append("-");
    p.append(stamp);
    p.append(".log");
    Some(p)
}

} // verus!

//! Key handling of the flashing workbench: editing the three forms,
//! scrolling and cancelling in the progress view, and the requests the
//! caller has to carry out (start flashing, list probes, export the log).

use vstd::prelude::*;
use crate::flash_state::{
    CHIP_PRESET_COUNT, FlasherState, FlasherView, JtagFlashView, SPEED_PRESET_COUNT,
    SwdFlashView, UsartIspView, chip_presets, cycle_probe_idx, cycled_backward, cycled_forward,
    field_has_room, max_log_scroll, min_usize, sat_sub,
};
use crate::flashing::{FlasherMethod, FlasherSubScreen, IspBootMode, IspConfigField, JtagConfigField, SwdConfigField, SwdConnectMode};
use crate::isp_session::ISP_BAUD_PRESET_COUNT;
use crate::keys::{KeyCode, KeyModifiers};
use crate::text::utf8_len;
use crate::widgets::{after_backspace, after_input_char, cursor_after_left, cursor_after_right};
use crate::monitor::joined_lines;

verus! {

/// What the caller does after a key was handled.
#[derive(Debug, Clone, Copy, PartialEq, Eq, Structural)]
pub enum Action {
    Nothing,
    /// Leave to the protocol's page.
    GoHome,
    /// Leave to the serial protocol page.
    GoSerial,
    /// Start flashing with the current form.
    StartFlash,
    /// List the debug probes again and hand them to the form.
    RefreshProbes,
    /// Copy the log to the clipboard.
    CopyLog,
    /// Save the log to a file.
    SaveLog,
}

/// The other boot mode.
pub open spec fn flipped_boot_mode(m: IspBootMode) -> IspBootMode {
    if m == IspBootMode::Manual {
        IspBootMode::Auto
    } else {
        IspBootMode::Manual
    }
}

/// The other connect mode.
pub open spec fn flipped_connect_mode(m: SwdConnectMode) -> SwdConnectMode {
    if m == SwdConnectMode::Normal {
        SwdConnectMode::UnderReset
    } else {
        SwdConnectMode::Normal
    }
}

/// An index moved one step through a list of `len` entries.
pub open spec fn cycled(idx: usize, len: nat, forward: bool) -> usize {
    if forward {
        cycled_forward(idx as nat, len) as usize
    } else {
        cycled_backward(idx as nat, len) as usize
    }
}

/// Left/Right on a USART ISP field that is not the file path: the next or
/// previous port, baud rate or boot mode.
pub open spec fn isp_cycled(v: UsartIspView, forward: bool) -> UsartIspView {
    match v.field {
        IspConfigField::Port => if v.port_list.len() == 0 {
            v
        } else {
            UsartIspView { port_idx: cycled(v.port_idx, v.port_list.len(), forward), ..v }
        },
        IspConfigField::BaudRate => UsartIspView {
            baud_idx: cycled(v.baud_idx, ISP_BAUD_PRESET_COUNT as nat, forward),
            ..v
        },
        IspConfigField::BootMode => UsartIspView { boot_mode: flipped_boot_mode(v.boot_mode), ..v },
        IspConfigField::FilePath => v,
    }
}

/// The USART ISP form after a key, and what the caller must do.
pub open spec fn isp_config_step(v: UsartIspView, key: KeyCode, mods: KeyModifiers) -> (
    UsartIspView,
    Action,
) {
    let on_path = v.field == IspConfigField::FilePath;
    match key {
        KeyCode::Esc => (v, Action::GoSerial),
        KeyCode::Up | KeyCode::BackTab => (
            UsartIspView { field: v.field.predecessor(), ..v },
            Action::Nothing,
        ),
        KeyCode::Down => (UsartIspView { field: v.field.successor(), ..v }, Action::Nothing),
        KeyCode::Tab => if mods.bits == 0 {
            (UsartIspView { field: v.field.successor(), ..v }, Action::Nothing)
        } else {
            (v, Action::Nothing)
        },
        KeyCode::Left => if on_path {
            (
                UsartIspView {
                    file_cursor: cursor_after_left(v.file_path, v.file_cursor as int) as usize,
                    ..v
                },
                Action::Nothing,
            )
        } else {
            (isp_cycled(v, false), Action::Nothing)
        },
        KeyCode::Right => if on_path {
            (
                UsartIspView {
                    file_cursor: cursor_after_right(v.file_path, v.file_cursor as int) as usize,
                    ..v
                },
                Action::Nothing,
            )
        } else {
            (isp_cycled(v, true), Action::Nothing)
        },
        KeyCode::Home => if on_path {
            (UsartIspView { file_cursor: 0, ..v }, Action::Nothing)
        } else {
            (v, Action::Nothing)
        },
        KeyCode::End => if on_path {
            (UsartIspView { file_cursor: utf8_len(v.file_path) as usize, ..v }, Action::Nothing)
        } else {
            (v, Action::Nothing)
        },
        KeyCode::Backspace => if on_path {
            (
                UsartIspView {
                    file_path: after_backspace(v.file_path, v.file_cursor as int).0,
                    file_cursor: after_backspace(v.file_path, v.file_cursor as int).1 as usize,
                    ..v
                },
                Action::Nothing,
            )
        } else {
            (v, Action::Nothing)
        },
        KeyCode::Char(c) => if on_path && mods.is_plain_typing() {
            (
                UsartIspView {
                    file_path: after_input_char(v.file_path, v.file_cursor as int, c).0,
                    file_cursor: after_input_char(v.file_path, v.file_cursor as int, c).1 as usize,
                    ..v
                },
                Action::Nothing,
            )
        } else {
            (v, Action::Nothing)
        },
        KeyCode::Enter => (v, Action::StartFlash),
        _ => (v, Action::Nothing),
    }
}

/// A text field of a probe form (JTAG or SWD).
#[derive(Debug, Clone, Copy, PartialEq, Eq, Structural)]
pub enum ProbeTextField {
    BinBase,
    Chip,
    File,
}

/// Text and cursor of a probe form after typing `c` into one of its fields.
pub open spec fn typed(text: Seq<char>, cursor: usize, c: char) -> (Seq<char>, usize) {
    (after_input_char(text, cursor as int, c).0, after_input_char(text, cursor as int, c).1 as usize)
}

/// Text and cursor of a probe form after a backspace in one of its fields.
pub open spec fn erased(text: Seq<char>, cursor: usize) -> (Seq<char>, usize) {
    (after_backspace(text, cursor as int).0, after_backspace(text, cursor as int).1 as usize)
}

/// The text field a JTAG form field edits, if it is one.
pub open spec fn jtag_text_field(f: JtagConfigField) -> Option<ProbeTextField> {
    match f {
        JtagConfigField::BinBaseAddress => Some(ProbeTextField::BinBase),
        JtagConfigField::ChipName => Some(ProbeTextField::Chip),
        JtagConfigField::FilePath => Some(ProbeTextField::File),
        _ => None,
    }
}

/// The text field an SWD form field edits, if it is one.
pub open spec fn swd_text_field(f: SwdConfigField) -> Option<ProbeTextField> {
    match f {
        SwdConfigField::BinBaseAddress => Some(ProbeTextField::BinBase),
        SwdConfigField::ChipName => Some(ProbeTextField::Chip),
        SwdConfigField::FilePath => Some(ProbeTextField::File),
        _ => None,
    }
}

/// A JTAG form after typing `c` into its focused text field (if any).
pub open spec fn jtag_typed(v: JtagFlashView, c: char) -> JtagFlashView {
    match jtag_text_field(v.field) {
        Some(ProbeTextField::BinBase) => JtagFlashView {
            bin_base_address: typed(v.bin_base_address, v.bin_base_cursor, c).0,
            bin_base_cursor: typed(v.bin_base_address, v.bin_base_cursor, c).1,
            ..v
        },
        Some(ProbeTextField::Chip) => JtagFlashView {
            chip_name: typed(v.chip_name, v.chip_cursor, c).0,
            chip_cursor: typed(v.chip_name, v.chip_cursor, c).1,
            ..v
        },
        Some(ProbeTextField::File) => JtagFlashView {
            file_path: typed(v.file_path, v.file_cursor, c).0,
            file_cursor: typed(v.file_path, v.file_cursor, c).1,
            ..v
        },
        None => v,
    }
}

/// A JTAG form after a backspace in its focused text field (if any).
pub open spec fn jtag_erased(v: JtagFlashView) -> JtagFlashView {
    match jtag_text_field(v.field) {
        Some(ProbeTextField::BinBase) => JtagFlashView {
            bin_base_address: erased(v.bin_base_address, v.bin_base_cursor).0,
            bin_base_cursor: erased(v.bin_base_address, v.bin_base_cursor).1,
            ..v
        },
        Some(ProbeTextField::Chip) => JtagFlashView {
            chip_name: erased(v.chip_name, v.chip_cursor).0,
            chip_cursor: erased(v.chip_name, v.chip_cursor).1,
            ..v
        },
        Some(ProbeTextField::File) => JtagFlashView {
            file_path: erased(v.file_path, v.file_cursor).0,
            file_cursor: erased(v.file_path, v.file_cursor).1,
            ..v
        },
        None => v,
    }
}

/// An SWD form after typing `c` into its focused text field (if any).
pub open spec fn swd_typed(v: SwdFlashView, c: char) -> SwdFlashView {
    match swd_text_field(v.field) {
        Some(ProbeTextField::BinBase) => SwdFlashView {
            bin_base_address: typed(v.bin_base_address, v.bin_base_cursor, c).0,
            bin_base_cursor: typed(v.bin_base_address, v.bin_base_cursor, c).1,
            ..v
        },
        Some(ProbeTextField::Chip) => SwdFlashView {
            chip_name: typed(v.chip_name, v.chip_cursor, c).0,
            chip_cursor: typed(v.chip_name, v.chip_cursor, c).1,
            ..v
        },
        Some(ProbeTextField::File) => SwdFlashView {
            file_path: typed(v.file_path, v.file_cursor, c).0,
            file_cursor: typed(v.file_path, v.file_cursor, c).1,
            ..v
        },
        None => v,
    }
}

/// An SWD form after a backspace in its focused text field (if any).
pub open spec fn swd_erased(v: SwdFlashView) -> SwdFlashView {
    match swd_text_field(v.field) {
        Some(ProbeTextField::BinBase) => SwdFlashView {
            bin_base_address: erased(v.bin_base_address, v.bin_base_cursor).0,
            bin_base_cursor: erased(v.bin_base_address, v.bin_base_cursor).1,
            ..v
        },
        Some(ProbeTextField::Chip) => SwdFlashView {
            chip_name: erased(v.chip_name, v.chip_cursor).0,
            chip_cursor: erased(v.chip_name, v.chip_cursor).1,
            ..v
        },
        Some(ProbeTextField::File) => SwdFlashView {
            file_path: erased(v.file_path, v.file_cursor).0,
            file_cursor: erased(v.file_path, v.file_cursor).1,
            ..v
        },
        None => v,
    }
}

/// The chip name and cursor once preset `idx` is applied ("Custom" keeps
/// the name).
pub open spec fn preset_applied(name: Seq<char>, cursor: usize, idx: usize) -> (Seq<char>, usize) {
    if idx == 0 {
        (name, cursor)
    } else {
        (chip_presets()[idx as int], utf8_len(chip_presets()[idx as int]) as usize)
    }
}

/// Left/Right on a JTAG field that is not a text field.
pub open spec fn jtag_cycled(v: JtagFlashView, forward: bool) -> JtagFlashView {
    match v.field {
        JtagConfigField::Probe => if v.probe_list.len() == 0 {
            v
        } else {
            JtagFlashView { probe_idx: cycled(v.probe_idx, v.probe_list.len(), forward), ..v }
        },
        JtagConfigField::Speed => JtagFlashView {
            speed_idx: cycled(v.speed_idx, SPEED_PRESET_COUNT as nat, forward),
            ..v
        },
        JtagConfigField::Verify => JtagFlashView { verify: !v.verify, ..v },
        JtagConfigField::ResetRun => JtagFlashView { reset_run: !v.reset_run, ..v },
        JtagConfigField::ChipPreset => {
            let idx = cycled(v.chip_preset_idx, CHIP_PRESET_COUNT as nat, forward);
            JtagFlashView {
                chip_preset_idx: idx,
                chip_name: preset_applied(v.chip_name, v.chip_cursor, idx).0,
                chip_cursor: preset_applied(v.chip_name, v.chip_cursor, idx).1,
                ..v
            }
        },
        _ => v,
    }
}

/// Left/Right on an SWD field that is not a text field.
pub open spec fn swd_cycled(v: SwdFlashView, forward: bool) -> SwdFlashView {
    match v.field {
        SwdConfigField::Probe => if v.probe_list.len() == 0 {
            v
        } else {
            SwdFlashView { probe_idx: cycled(v.probe_idx, v.probe_list.len(), forward), ..v }
        },
        SwdConfigField::Speed => SwdFlashView {
            speed_idx: cycled(v.speed_idx, SPEED_PRESET_COUNT as nat, forward),
            ..v
        },
        SwdConfigField::ConnectMode => SwdFlashView {
            connect_mode: flipped_connect_mode(v.connect_mode),
            ..v
        },
        SwdConfigField::Verify => SwdFlashView { verify: !v.verify, ..v },
        SwdConfigField::ResetRun => SwdFlashView { reset_run: !v.reset_run, ..v },
        SwdConfigField::ChipPreset => {
            let idx = cycled(v.chip_preset_idx, CHIP_PRESET_COUNT as nat, forward);
            SwdFlashView {
                chip_preset_idx: idx,
                chip_name: preset_applied(v.chip_name, v.chip_cursor, idx).0,
                chip_cursor: preset_applied(v.chip_name, v.chip_cursor, idx).1,
                ..v
            }
        },
        _ => v,
    }
}

/// The JTAG form after a key, and what the caller must do.
pub open spec fn jtag_config_step(v: JtagFlashView, key: KeyCode, mods: KeyModifiers) -> (
    JtagFlashView,
    Action,
) {
    match key {
        KeyCode::Esc => (v, Action::GoHome),
        KeyCode::Char('r') if mods.bits == 0 => if v.field == JtagConfigField::Probe {
            (v, Action::RefreshProbes)
        } else {
            (jtag_typed(v, 'r'), Action::Nothing)
        },
        KeyCode::Up | KeyCode::BackTab => (
            JtagFlashView { field: v.field.predecessor(), ..v },
            Action::Nothing,
        ),
        KeyCode::Down => (JtagFlashView { field: v.field.successor(), ..v }, Action::Nothing),
        KeyCode::Tab => if mods.bits == 0 {
            (JtagFlashView { field: v.field.successor(), ..v }, Action::Nothing)
        } else {
            (v, Action::Nothing)
        },
        KeyCode::Left => (jtag_cycled(v, false), Action::Nothing),
        KeyCode::Right => (jtag_cycled(v, true), Action::Nothing),
        KeyCode::Backspace => (jtag_erased(v), Action::Nothing),
        KeyCode::Char(c) => if mods.is_plain_typing() {
            (jtag_typed(v, c), Action::Nothing)
        } else {
            (v, Action::Nothing)
        },
        KeyCode::Enter => (v, Action::StartFlash),
        _ => (v, Action::Nothing),
    }
}

/// The SWD form after a key, and what the caller must do.
pub open spec fn swd_config_step(v: SwdFlashView, key: KeyCode, mods: KeyModifiers) -> (
    SwdFlashView,
    Action,
) {
    match key {
        KeyCode::Esc => (v, Action::GoHome),
        KeyCode::Char('r') if mods.bits == 0 => if v.field == SwdConfigField::Probe {
            (v, Action::RefreshProbes)
        } else {
            (swd_typed(v, 'r'), Action::Nothing)
        },
        KeyCode::Up | KeyCode::BackTab => (
            SwdFlashView { field: v.field.predecessor(), ..v },
            Action::Nothing,
        ),
        KeyCode::Down => (SwdFlashView { field: v.field.successor(), ..v }, Action::Nothing),
        KeyCode::Tab => if mods.bits == 0 {
            (SwdFlashView { field: v.field.successor(), ..v }, Action::Nothing)
        } else {
            (v, Action::Nothing)
        },
        KeyCode::Left => (swd_cycled(v, false), Action::Nothing),
        KeyCode::Right => (swd_cycled(v, true), Action::Nothing),
        KeyCode::Backspace => (swd_erased(v), Action::Nothing),
        KeyCode::Char(c) => if mods.is_plain_typing() {
            (swd_typed(v, c), Action::Nothing)
        } else {
            (v, Action::Nothing)
        },
        KeyCode::Enter => (v, Action::StartFlash),
        _ => (v, Action::Nothing),
    }
}

/// Text fields of a probe form have room for one more character.
pub open spec fn probe_fields_have_room(bin_base: Seq<char>, chip: Seq<char>, file: Seq<char>) -> bool {
    field_has_room(bin_base) && field_has_room(chip) && field_has_room(file)
}

impl FlasherState {
    fn isp_cycle_option(&mut self, forward: bool)
        requires
            old(self).wf(),
            old(self).usart_isp.field != IspConfigField::FilePath,
        ensures
            final(self).wf(),
            final(self)@ == (FlasherView { usart_isp: isp_cycled(old(self)@.usart_isp, forward), ..old(self)@ }),
    {
        match self.usart_isp.field {
            IspConfigField::Port => {
                let len = self.usart_isp.port_list.len();
                let mut idx = self.usart_isp.port_idx;
                cycle_probe_idx(&mut idx, len, forward);
                self.usart_isp.port_idx = idx;
            },
            IspConfigField::BaudRate => {
                let mut idx = self.usart_isp.baud_idx;
                cycle_probe_idx(&mut idx, ISP_BAUD_PRESET_COUNT, forward);
                self.usart_isp.baud_idx = idx;
            },
            IspConfigField::BootMode => {
                self.usart_isp.boot_mode = if forward {
                    self.usart_isp.boot_mode.next()
                } else {
                    self.usart_isp.boot_mode.prev()
                };
            },
            IspConfigField::FilePath => {},
        }
    }

    /// Handles a key in the USART ISP form.
    pub fn handle_isp_config(&mut self, key: KeyCode, mods: KeyModifiers) -> (a: Action)
        requires
            old(self).wf(),
            field_has_room(old(self).usart_isp.file_path@),
        ensures
            final(self).wf(),
            final(self)@ == (FlasherView {
                usart_isp: isp_config_step(old(self)@.usart_isp, key, mods).0,
                ..old(self)@
            }),
            a == isp_config_step(old(self)@.usart_isp, key, mods).1,
    {
        let on_path = self.usart_isp.field == IspConfigField::FilePath;
        match key {
            KeyCode::Esc => Action::GoSerial,
            KeyCode::Up | KeyCode::BackTab => {
                self.usart_isp.field = self.usart_isp.field.prev();
                Action::Nothing
            },
            KeyCode::Down => {
                self.usart_isp.field = self.usart_isp.field.next();
                Action::Nothing
            },
            KeyCode::Tab => {
                if mods.is_empty() {
                    self.usart_isp.field = self.usart_isp.field.next();
                }
                Action::Nothing
            },
            KeyCode::Left => {
                if on_path {
                    self.usart_isp.file_cursor_left();
                } else {
                    self.isp_cycle_option(false);
                }
                Action::Nothing
            },
            KeyCode::Right => {
                if on_path {
                    self.usart_isp.file_cursor_right();
                } else {
                    self.isp_cycle_option(true);
                }
                Action::Nothing
            },
            KeyCode::Home => {
                if on_path {
                    self.usart_isp.file_cursor_home();
                }
                Action::Nothing
            },
            KeyCode::End => {
                if on_path {
                    self.usart_isp.file_cursor_end();
                }
                Action::Nothing
            },
            KeyCode::Backspace => {
                if on_path {
                    self.usart_isp.file_backspace();
                }
                Action::Nothing
            },
            KeyCode::Char(c) => {
                if on_path && (mods.is_empty() || mods.is_shift_only()) {
                    self.usart_isp.file_input_char(c);
                }
                Action::Nothing
            },
            KeyCode::Enter => Action::StartFlash,
            _ => Action::Nothing,
        }
    }
}

impl FlasherState {
    fn jtag_input_char(&mut self, c: char)
        requires
            old(self).wf(),
            probe_fields_have_room(old(self).jtag.bin_base_address@, old(self).jtag.chip_name@, old(self).jtag.file_path@),
        ensures
            final(self).wf(),
            final(self)@ == (FlasherView { jtag: jtag_typed(old(self)@.jtag, c), ..old(self)@ }),
    {
        match self.jtag.field {
            JtagConfigField::BinBaseAddress => self.jtag.bin_base_input_char(c),
            JtagConfigField::ChipName => self.jtag.chip_input_char(c),
            JtagConfigField::FilePath => self.jtag.file_input_char(c),
            _ => {},
        }
    }

    fn jtag_backspace(&mut self)
        requires
            old(self).wf(),
        ensures
            final(self).wf(),
            final(self)@ == (FlasherView { jtag: jtag_erased(old(self)@.jtag), ..old(self)@ }),
    {
        match self.jtag.field {
            JtagConfigField::BinBaseAddress => self.jtag.bin_base_backspace(),
            JtagConfigField::ChipName => self.jtag.chip_backspace(),
            JtagConfigField::FilePath => self.jtag.file_backspace(),
            _ => {},
        }
    }

    #[verifier::rlimit(60)]
    #[verifier::spinoff_prover]
    fn jtag_cycle_option(&mut self, forward: bool)
        requires
            old(self).wf(),
        ensures
            final(self).wf(),
            final(self)@ == (FlasherView { jtag: jtag_cycled(old(self)@.jtag, forward), ..old(self)@ }),
    {
        match self.jtag.field {
            JtagConfigField::Probe => {
                let len = self.jtag.probe_list.len();
                let mut idx = self.jtag.probe_idx;
                cycle_probe_idx(&mut idx, len, forward);
                self.jtag.probe_idx = idx;
            },
            JtagConfigField::Speed => {
                let mut idx = self.jtag.speed_idx;
                cycle_probe_idx(&mut idx, SPEED_PRESET_COUNT, forward);
                self.jtag.speed_idx = idx;
            },
            JtagConfigField::Verify => {
                self.jtag.verify = !self.jtag.verify;
            },
            JtagConfigField::ResetRun => {
                self.jtag.reset_run = !self.jtag.reset_run;
            },
            JtagConfigField::ChipPreset => {
                let mut idx = self.jtag.chip_preset_idx;
                cycle_probe_idx(&mut idx, CHIP_PRESET_COUNT, forward);
                self.jtag.chip_preset_idx = idx;
                self.jtag_apply_chip_preset();
            },
            _ => {},
        }
    }

    /// Handles a key in the JTAG form.
    pub fn handle_jtag_config(&mut self, key: KeyCode, mods: KeyModifiers) -> (a: Action)
        requires
            old(self).wf(),
            probe_fields_have_room(old(self).jtag.bin_base_address@, old(self).jtag.chip_name@, old(self).jtag.file_path@),
        ensures
            final(self).wf(),
            final(self)@ == (FlasherView {
                jtag: jtag_config_step(old(self)@.jtag, key, mods).0,
                ..old(self)@
            }),
            a == jtag_config_step(old(self)@.jtag, key, mods).1,
    {
        match key {
            KeyCode::Esc => Action::GoHome,
            KeyCode::Char('r') if mods.is_empty() => {
                if self.jtag.field == JtagConfigField::Probe {
                    Action::RefreshProbes
                } else {
                    self.jtag_input_char('r');
                    Action::Nothing
                }
            },
            KeyCode::Up | KeyCode::BackTab => {
                self.jtag.field = self.jtag.field.prev();
                Action::Nothing
            },
            KeyCode::Down => {
                self.jtag.field = self.jtag.field.next();
                Action::Nothing
            },
            KeyCode::Tab => {
                if mods.is_empty() {
                    self.jtag.field = self.jtag.field.next();
                }
                Action::Nothing
            },
            KeyCode::Left => {
                self.jtag_cycle_option(false);
                Action::Nothing
            },
            KeyCode::Right => {
                self.jtag_cycle_option(true);
                Action::Nothing
            },
            KeyCode::Backspace => {
                self.jtag_backspace();
                Action::Nothing
            },
            KeyCode::Char(c) => {
                if mods.is_empty() || mods.is_shift_only() {
                    self.jtag_input_char(c);
                }
                Action::Nothing
            },
            KeyCode::Enter => Action::StartFlash,
            _ => Action::Nothing,
        }
    }
}

impl FlasherState {
    fn swd_input_char(&mut self, c: char)
        requires
            old(self).wf(),
            probe_fields_have_room(old(self).swd.bin_base_address@, old(self).swd.chip_name@, old(self).swd.file_path@),
        ensures
            final(self).wf(),
            final(self)@ == (FlasherView { swd: swd_typed(old(self)@.swd, c), ..old(self)@ }),
    {
        match self.swd.field {
            SwdConfigField::BinBaseAddress => self.swd.bin_base_input_char(c),
            SwdConfigField::ChipName => self.swd.chip_input_char(c),
            SwdConfigField::FilePath => self.swd.file_input_char(c),
            _ => {},
        }
    }

    fn swd_backspace(&mut self)
        requires
            old(self).wf(),
        ensures
            final(self).wf(),
            final(self)@ == (FlasherView { swd: swd_erased(old(self)@.swd), ..old(self)@ }),
    {
        match self.swd.field {
            SwdConfigField::BinBaseAddress => self.swd.bin_base_backspace(),
            SwdConfigField::ChipName => self.swd.chip_backspace(),
            SwdConfigField::FilePath => self.swd.file_backspace(),
            _ => {},
        }
    }

    #[verifier::rlimit(60)]
    #[verifier::spinoff_prover]
    fn swd_cycle_option(&mut self, forward: bool)
        requires
            old(self).wf(),
        ensures
            final(self).wf(),
            final(self)@ == (FlasherView { swd: swd_cycled(old(self)@.swd, forward), ..old(self)@ }),
    {
        match self.swd.field {
            SwdConfigField::Probe => {
                let len = self.swd.probe_list.len();
                let mut idx = self.swd.probe_idx;
                cycle_probe_idx(&mut idx, len, forward);
                self.swd.probe_idx = idx;
            },
            SwdConfigField::Speed => {
                let mut idx = self.swd.speed_idx;
                cycle_probe_idx(&mut idx, SPEED_PRESET_COUNT, forward);
                self.swd.speed_idx = idx;
            },
            SwdConfigField::ConnectMode => {
                self.swd.connect_mode = if forward {
                    self.swd.connect_mode.next()
                } else {
                    self.swd.connect_mode.prev()
                };
            },
            SwdConfigField::Verify => {
                self.swd.verify = !self.swd.verify;
            },
            SwdConfigField::ResetRun => {
                self.swd.reset_run = !self.swd.reset_run;
            },
            SwdConfigField::ChipPreset => {
                let mut idx = self.swd.chip_preset_idx;
                cycle_probe_idx(&mut idx, CHIP_PRESET_COUNT, forward);
                self.swd.chip_preset_idx = idx;
                self.swd_apply_chip_preset();
            },
            _ => {},
        }
    }

    /// Handles a key in the SWD form.
    pub fn handle_swd_config(&mut self, key: KeyCode, mods: KeyModifiers) -> (a: Action)
        requires
            old(self).wf(),
            probe_fields_have_room(old(self).swd.bin_base_address@, old(self).swd.chip_name@, old(self).swd.file_path@),
        ensures
            final(self).wf(),
            final(self)@ == (FlasherView {
                swd: swd_config_step(old(self)@.swd, key, mods).0,
                ..old(self)@
            }),
            a == swd_config_step(old(self)@.swd, key, mods).1,
    {
        match key {
            KeyCode::Esc => Action::GoHome,
            KeyCode::Char('r') if mods.is_empty() => {
                if self.swd.field == SwdConfigField::Probe {
                    Action::RefreshProbes
                } else {
                    self.swd_input_char('r');
                    Action::Nothing
                }
            },
            KeyCode::Up | KeyCode::BackTab => {
                self.swd.field = self.swd.field.prev();
                Action::Nothing
            },
            KeyCode::Down => {
                self.swd.field = self.swd.field.next();
                Action::Nothing
            },
            KeyCode::Tab => {
                if mods.is_empty() {
                    self.swd.field = self.swd.field.next();
                }
                Action::Nothing
            },
            KeyCode::Left => {
                self.swd_cycle_option(false);
                Action::Nothing
            },
            KeyCode::Right => {
                self.swd_cycle_option(true);
                Action::Nothing
            },
            KeyCode::Backspace => {
                self.swd_backspace();
                Action::Nothing
            },
            KeyCode::Char(c) => {
                if mods.is_empty() || mods.is_shift_only() {
                    self.swd_input_char(c);
                }
                Action::Nothing
            },
            KeyCode::Enter => Action::StartFlash,
            _ => Action::Nothing,
        }
    }
}

/// Line added to the log when Esc is pressed once during an operation.
pub open spec fn cancel_prompt() -> Seq<char> {
    "Press Esc again to cancel flashing."@
}

/// Most lines the progress log keeps.
pub const MAX_LOG_LINES: usize = 500;

/// The log after appending `line`, dropping the oldest line beyond the cap.
pub open spec fn capped_log(log: Seq<Seq<char>>, line: Seq<char>) -> Seq<Seq<char>> {
    if log.len() + 1 > MAX_LOG_LINES {
        log.push(line).drop_first()
    } else {
        log.push(line)
    }
}

/// The progress view after a key, and what the caller must do.
pub open spec fn progress_step(v: FlasherView, key: KeyCode) -> FlasherView {
    let rows = v.log_visible_rows as int;
    let page = sat_sub(rows, 1);
    let calm = FlasherView { cancel_armed: false, ..v };
    match key {
        KeyCode::Esc => if v.op_done {
            FlasherView { cancel_armed: false, sub_screen: FlasherSubScreen::Config, ..v }
        } else if !v.cancel_armed {
            FlasherView { cancel_armed: true, log: v.log.push(cancel_prompt()), ..v }
        } else {
            FlasherView {
                cancel_armed: false,
                has_stop_flag: false,
                sub_screen: FlasherSubScreen::Config,
                ..v
            }
        },
        KeyCode::Up => FlasherView { log_scroll: sat_sub(v.log_scroll as int, 1), ..calm },
        KeyCode::Down => FlasherView {
            log_scroll: min_usize(
                (v.log_scroll + 1) as usize,
                max_log_scroll(v.log.len(), v.log_visible_rows),
            ),
            ..calm
        },
        KeyCode::PageUp => FlasherView {
            log_scroll: sat_sub(v.log_scroll as int, page as int),
            ..calm
        },
        KeyCode::PageDown => FlasherView {
            log_scroll: min_usize(
                (v.log_scroll + page) as usize,
                max_log_scroll(v.log.len(), v.log_visible_rows),
            ),
            ..calm
        },
        KeyCode::Home => FlasherView { log_scroll: 0, ..calm },
        KeyCode::End => FlasherView {
            log_scroll: max_log_scroll(v.log.len(), v.log_visible_rows),
            ..calm
        },
        _ => calm,
    }
}

/// The workbench log never holds more than 500 lines: a new line is always
/// kept as the last one, after the lines before it, and only the oldest
/// line goes when the log is full.
pub proof fn law_flasher_log_bounded(log: Seq<Seq<char>>, line: Seq<char>)
    requires
        log.len() <= MAX_LOG_LINES,
    ensures
        capped_log(log, line).len() <= MAX_LOG_LINES,
        capped_log(log, line).last() == line,
        log.len() < MAX_LOG_LINES ==> capped_log(log, line) == log.push(line),
        log.len() == MAX_LOG_LINES ==> capped_log(log, line) == log.drop_first().push(line),
{
    if log.len() == MAX_LOG_LINES {
        assert(log.push(line).drop_first() =~= log.drop_first().push(line));
    }
}

/// Esc during a running operation first asks for confirmation, logging the
/// prompt; a second Esc cancels and returns to the form, while any other
/// key in between withdraws the confirmation.
pub proof fn law_esc_twice_cancels(v: FlasherView, other: KeyCode)
    requires
        !v.op_done,
        !v.cancel_armed,
        other != KeyCode::Esc,
    ensures
        progress_step(v, KeyCode::Esc).cancel_armed,
        progress_step(v, KeyCode::Esc).log == v.log.push(cancel_prompt()),
        progress_step(v, KeyCode::Esc).sub_screen == v.sub_screen,
        progress_step(progress_step(v, KeyCode::Esc), KeyCode::Esc).sub_screen == FlasherSubScreen::Config,
        !progress_step(progress_step(v, KeyCode::Esc), KeyCode::Esc).cancel_armed,
        !progress_step(progress_step(v, KeyCode::Esc), KeyCode::Esc).has_stop_flag,
        !progress_step(progress_step(v, KeyCode::Esc), other).cancel_armed,
{
}

/// Scrolling down from `scroll` does not overflow for this key.
pub open spec fn progress_scroll_fits(v: FlasherView, key: KeyCode) -> bool {
    &&& key == KeyCode::Down ==> v.log_scroll + 1 <= usize::MAX
    &&& key == KeyCode::PageDown ==> v.log_scroll + sat_sub(v.log_visible_rows as int, 1)
        <= usize::MAX
}

/// The workbench after a key, and what the caller must do: F6 and F7
/// export the log from any view; otherwise the progress view, or the form
/// of the current protocol, takes the key.
pub open spec fn flasher_key_step(v: FlasherView, key: KeyCode, mods: KeyModifiers) -> (
    FlasherView,
    Action,
) {
    if key == KeyCode::F(6) {
        (v, Action::CopyLog)
    } else if key == KeyCode::F(7) {
        (v, Action::SaveLog)
    } else if v.sub_screen == FlasherSubScreen::Progress {
        (progress_step(v, key), Action::Nothing)
    } else {
        match v.method {
            FlasherMethod::UsartIsp => (
                FlasherView { usart_isp: isp_config_step(v.usart_isp, key, mods).0, ..v },
                isp_config_step(v.usart_isp, key, mods).1,
            ),
            FlasherMethod::Jtag => (
                FlasherView { jtag: jtag_config_step(v.jtag, key, mods).0, ..v },
                jtag_config_step(v.jtag, key, mods).1,
            ),
            FlasherMethod::Swd => (
                FlasherView { swd: swd_config_step(v.swd, key, mods).0, ..v },
                swd_config_step(v.swd, key, mods).1,
            ),
        }
    }
}

/// The workbench can take the key without an overflow.
pub open spec fn flasher_key_ok(s: &FlasherState, key: KeyCode) -> bool {
    &&& s.wf()
    &&& field_has_room(s.usart_isp.file_path@)
    &&& probe_fields_have_room(s.jtag.bin_base_address@, s.jtag.chip_name@, s.jtag.file_path@)
    &&& probe_fields_have_room(s.swd.bin_base_address@, s.swd.chip_name@, s.swd.file_path@)
    &&& (s.sub_screen == FlasherSubScreen::Progress ==> progress_scroll_fits(s@, key))
}

/// The workbench once the operation ended: a failure adds its message to
/// the log, a success shows 100 %; the stop flag is dropped, the cancel
/// disarmed, and the log follows its end.
pub open spec fn finished_view(v: FlasherView, success: bool, message: Seq<char>) -> FlasherView {
    FlasherView {
        op_done: true,
        op_ok: success,
        cancel_armed: false,
        log: if success {
            v.log
        } else {
            v.log.push(message)
        },
        progress_pct: if success {
            Some(100u8)
        } else {
            v.progress_pct
        },
        log_scroll: usize::MAX,
        has_stop_flag: false,
        ..v
    }
}

impl FlasherState {
    /// Handles a key in the progress view: Esc leaves a finished operation,
    /// and cancels a running one when pressed twice in a row; the other
    /// keys scroll the log and disarm the cancel.
    pub fn handle_progress(&mut self, key: KeyCode) -> (a: Action)
        requires
            old(self).wf(),
            progress_scroll_fits(old(self)@, key),
        ensures
            final(self).wf(),
            final(self)@ == progress_step(old(self)@, key),
            !(key == KeyCode::Esc && !old(self).op_done && old(self).cancel_armed)
                ==> final(self).stop_flag == old(self).stop_flag,
            a == Action::Nothing,
    {
        let visible = self.log_visible_rows as usize;
        let page = if visible > 0 { visible - 1 } else { 0 };
        match key {
            KeyCode::Esc => {
                if self.op_done {
                    self.cancel_armed = false;
                    self.sub_screen = FlasherSubScreen::Config;
                    return Action::Nothing;
                }
                if !self.cancel_armed {
                    self.cancel_armed = true;
                    self.log.push(String::from_str("Press Esc again to cancel flashing."));
                    proof {
                        assert(self.log.deep_view() =~= old(self).log.deep_view().push(cancel_prompt()));
                    }
                    return Action::Nothing;
                }
                self.request_stop();
                self.sub_screen = FlasherSubScreen::Config;
                Action::Nothing
            },
            KeyCode::Up => {
                self.cancel_armed = false;
                self.scroll_log_up(1);
                Action::Nothing
            },
            KeyCode::Down => {
                self.cancel_armed = false;
                self.scroll_log_down(1);
                Action::Nothing
            },
            KeyCode::PageUp => {
                self.cancel_armed = false;
                self.scroll_log_up(page);
                Action::Nothing
            },
            KeyCode::PageDown => {
                self.cancel_armed = false;
                self.scroll_log_down(page);
                Action::Nothing
            },
            KeyCode::Home => {
                self.cancel_armed = false;
                self.scroll_log_home();
                Action::Nothing
            },
            KeyCode::End => {
                self.cancel_armed = false;
                self.scroll_log_end();
                Action::Nothing
            },
            _ => {
                self.cancel_armed = false;
                Action::Nothing
            },
        }
    }

    /// Handles a key on the flashing screen: F6 and F7 export the log from
    /// any view; otherwise the form of the current protocol, or the
    /// progress view, takes the key.
    pub fn handle_key(&mut self, key: KeyCode, mods: KeyModifiers) -> (a: Action)
        requires
            flasher_key_ok(old(self), key),
        ensures
            final(self).wf(),
            (final(self)@, a) == flasher_key_step(old(self)@, key, mods),
    {
        if key == KeyCode::F(6) {
            return Action::CopyLog;
        }
        if key == KeyCode::F(7) {
            return Action::SaveLog;
        }
        match self.sub_screen {
            FlasherSubScreen::Progress => self.handle_progress(key),
            FlasherSubScreen::Config => match self.method {
                FlasherMethod::UsartIsp => self.handle_isp_config(key, mods),
                FlasherMethod::Jtag => self.handle_jtag_config(key, mods),
                FlasherMethod::Swd => self.handle_swd_config(key, mods),
            },
        }
    }

    /// Adds a line reported by the flashing thread, keeping at most 500
    /// lines, and follows the end of the log.
    pub fn push_log_line(&mut self, line: String)
        ensures
            final(self)@ == (FlasherView {
                log: capped_log(old(self)@.log, line@),
                log_scroll: usize::MAX,
                ..old(self)@
            }),
            final(self).usart_isp == old(self).usart_isp,
            final(self).jtag == old(self).jtag,
            final(self).swd == old(self).swd,
    {
        self.log.push(line);
        if self.log.len() > MAX_LOG_LINES {
            self.log.remove(0);
        }
        self.log_scroll = usize::MAX;
        proof {
            assert(self.log.deep_view() =~= capped_log(old(self).log.deep_view(), line@));
        }
    }

    /// Records a progress percentage.
    pub fn set_progress(&mut self, pct: u8)
        ensures
            final(self)@ == (FlasherView { progress_pct: Some(pct), ..old(self)@ }),
            final(self).usart_isp == old(self).usart_isp,
            final(self).jtag == old(self).jtag,
            final(self).swd == old(self).swd,
    {
        self.progress_pct = Some(pct);
    }

    /// Records the end of the operation: a failure adds its message to the
    /// log, a success shows 100 %; the stop flag is dropped, the cancel
    /// disarmed, and the log follows its end.
    pub fn finish_operation(&mut self, success: bool, message: String)
        ensures
            final(self)@ == finished_view(old(self)@, success, message@),
            final(self).usart_isp == old(self).usart_isp,
            final(self).jtag == old(self).jtag,
            final(self).swd == old(self).swd,
    {
        self.op_done = true;
        self.op_ok = success;
        self.cancel_armed = false;
        if !success {
            self.log.push(message);
            proof {
                assert(self.log.deep_view() =~= old(self).log.deep_view().push(message@));
            }
        } else {
            self.progress_pct = Some(100);
        }
        self.log_scroll = usize::MAX;
        self.stop_flag = None;
    }

    /// Records why an operation could not start: an "Error: " line, and the
    /// operation marked finished and failed.
    pub fn fail_start(&mut self, message: String)
        ensures
            final(self)@ == (FlasherView {
                log: old(self)@.log.push("Error: "@ + message@),
                op_done: true,
                op_ok: false,
                ..old(self)@
            }),
            final(self).usart_isp == old(self).usart_isp,
            final(self).jtag == old(self).jtag,
            final(self).swd == old(self).swd,
    {
        let mut line = String::from_str("Error: ");
        line.append(message.as_str());
        self.log.push(line);
        self.op_done = true;
        self.op_ok = false;
        proof {
            assert(self.log.deep_view() =~= old(self).log.deep_view().push("Error: "@ + message@));
        }
    }

    /// The log as text, its lines joined with `\n`.
    pub fn log_text(&self) -> (s: String)
        ensures
            s@ == joined_lines(self@.log),
    {
        let ghost lines = self.log.deep_view();
        let mut out = String::new();
        let mut i: usize = 0;
        proof {
            assert(lines.take(0) =~= Seq::<Seq<char>>::empty());
        }
        while i < self.log.len()
            invariant
                lines == self.log.deep_view(),
                i <= self.log@.len(),
                out@ == joined_lines(lines.take(i as int)),
            decreases self.log@.len() - i,
        {
            if i > 0 {
                out.append("\n");
            }
            out.append(self.log[i].as_str());
            proof {
                assert(lines.take(i + 1).drop_last() =~= lines.take(i as int));
                if i == 0 {
                    assert(lines.take(1) =~= seq![lines[0]]);
                }
            }
            i = i + 1;
        }
        proof {
            assert(lines.take(i as int) =~= lines);
        }
        out
    }

    /// Records the outcome of a log export and shows the end of the log.
    pub fn note_export(&mut self, line: String)
        ensures
            final(self)@ == (FlasherView {
                log: old(self)@.log.push(line@),
                log_scroll: max_log_scroll(old(self)@.log.len() + 1, old(self).log_visible_rows),
                ..old(self)@
            }),
            final(self).usart_isp == old(self).usart_isp,
            final(self).jtag == old(self).jtag,
            final(self).swd == old(self).swd,
    {
        self.log.push(line);
        proof {
            assert(self.log.deep_view() =~= old(self).log.deep_view().push(line@));
        }
        self.scroll_log_end();
    }
}

} // verus!

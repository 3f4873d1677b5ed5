//! State of the flashing workbench: the USART ISP, JTAG and SWD forms, the
//! progress log of a running operation, and the presets the forms offer.

use vstd::prelude::*;
use std::sync::Arc;
use std::sync::atomic::AtomicBool;
use crate::flashing::{FlasherMethod, FlasherSubScreen, IspBootMode, IspConfigField, JtagConfigField, SwdConfigField, SwdConnectMode};
use crate::isp_session::{ISP_BAUD_PRESET_COUNT, isp_baud_preset, isp_baud_presets};
use crate::serial_config::{SerialConfig, SerialConfigView};
use crate::numfmt::{decimal_text, push_decimal};
use crate::text::{is_boundary, utf8_len};
use crate::widgets::{after_backspace, after_input_char, cursor_after_left, cursor_after_right, text_backspace, text_cursor_end, text_cursor_home, text_cursor_left, text_cursor_right, text_input_char};

verus! {

/// Number of debug-probe speed presets.
pub const SPEED_PRESET_COUNT: usize = 6;

/// Probe clock speeds in kHz offered for SWD and JTAG.
pub open spec fn speed_presets() -> Seq<u32> {
    seq![100u32, 400, 1000, 1800, 4000, 8000]
}

/// The speed preset at `idx`, in kHz.
pub fn speed_preset(idx: usize) -> (k: u32)
    requires
        idx < SPEED_PRESET_COUNT,
    ensures
        k == speed_presets()[idx as int],
{
    match idx {
        0 => 100,
        1 => 400,
        2 => 1000,
        3 => 1800,
        4 => 4000,
        _ => 8000,
    }
}

/// Number of chip presets (the first is "Custom").
pub const CHIP_PRESET_COUNT: usize = 12;

/// Chip presets offered for SWD and JTAG; "Custom" leaves the name alone.
pub open spec fn chip_presets() -> Seq<Seq<char>> {
    seq![
        "Custom"@,
        "STM32F103C8"@,
        "STM32F103ZE"@,
        "STM32F407VE"@,
        "STM32F407ZG"@,
        "STM32F429ZI"@,
        "STM32F767ZI"@,
        "STM32H743ZI"@,
        "STM32G431CB"@,
        "STM32G474RE"@,
        "STM32L431RC"@,
        "STM32L476RG"@,
    ]
}

/// The chip preset at `idx`.
pub fn chip_preset(idx: usize) -> (s: &'static str)
    requires
        idx < CHIP_PRESET_COUNT,
    ensures
        s@ == chip_presets()[idx as int],
{
    match idx {
        0 => "Custom",
        1 => "STM32F103C8",
        2 => "STM32F103ZE",
        3 => "STM32F407VE",
        4 => "STM32F407ZG",
        5 => "STM32F429ZI",
        6 => "STM32F767ZI",
        7 => "STM32H743ZI",
        8 => "STM32G431CB",
        9 => "STM32G474RE",
        10 => "STM32L431RC",
        _ => "STM32L476RG",
    }
}

/// Index after `idx` in a list of `len` entries, wrapping to the first.
pub open spec fn cycled_forward(idx: nat, len: nat) -> nat {
    (idx + 1) % len
}

/// Index before `idx` in a list of `len` entries, wrapping to the last.
pub open spec fn cycled_backward(idx: nat, len: nat) -> nat {
    if idx == 0 {
        (len - 1) as nat
    } else {
        (idx - 1) as nat
    }
}

/// Moves a list selection one step forward or back, wrapping around; an
/// empty list leaves it alone.
pub fn cycle_probe_idx(idx: &mut usize, len: usize, forward: bool)
    ensures
        len == 0 ==> *final(idx) == *old(idx),
        len > 0 && forward ==> *final(idx) as nat == cycled_forward(*old(idx) as nat, len as nat),
        len > 0 && !forward ==> *final(idx) as nat == cycled_backward(
            *old(idx) as nat,
            len as nat,
        ),
{
    if len == 0 {
        return;
    }
    if forward {
        *idx = ((*idx as u128 + 1) % (len as u128)) as usize;
    } else if *idx == 0 {
        *idx = len - 1;
    } else {
        *idx = *idx - 1;
    }
}

/// The cursor of a text field sits on a character boundary of its text,
/// whose byte length fits in a `usize`.
pub open spec fn field_ok(text: Seq<char>, cursor: usize) -> bool {
    is_boundary(text, cursor as int) && utf8_len(text) <= usize::MAX
}

/// A text field can take one more character without its byte length
/// overflowing.
pub open spec fn field_has_room(text: Seq<char>) -> bool {
    utf8_len(text) + 4 <= usize::MAX
}

/// What the USART ISP form holds.
pub struct UsartIspView {
    pub port_list: Seq<Seq<char>>,
    pub port_idx: usize,
    pub baud_idx: usize,
    pub boot_mode: IspBootMode,
    pub file_path: Seq<char>,
    pub file_cursor: usize,
    pub field: IspConfigField,
}

/// The USART ISP form.
pub struct UsartIspState {
    pub port_list: Vec<String>,
    pub port_idx: usize,
    pub baud_idx: usize,
    pub boot_mode: IspBootMode,
    pub file_path: String,
    pub file_cursor: usize,
    pub field: IspConfigField,
}

impl View for UsartIspState {
    type V = UsartIspView;

    open spec fn view(&self) -> UsartIspView {
        UsartIspView {
            port_list: self.port_list.deep_view(),
            port_idx: self.port_idx,
            baud_idx: self.baud_idx,
            boot_mode: self.boot_mode,
            file_path: self.file_path@,
            file_cursor: self.file_cursor,
            field: self.field,
        }
    }
}

impl UsartIspState {
    /// The form's fields are usable: the file cursor is on a boundary and
    /// the baud index names a preset.
    pub open spec fn wf(&self) -> bool {
        &&& field_ok(self.file_path@, self.file_cursor)
        &&& self.baud_idx < ISP_BAUD_PRESET_COUNT
    }

    /// An empty form: no ports listed, 115200 baud, manual boot, no file.
    pub fn new() -> (s: UsartIspState)
        ensures
            s@ == (UsartIspView {
                port_list: Seq::empty(),
                port_idx: 0,
                baud_idx: 7,
                boot_mode: IspBootMode::Manual,
                file_path: Seq::empty(),
                file_cursor: 0,
                field: IspConfigField::Port,
            }),
            s.wf(),
    {
        let s = UsartIspState {
            port_list: Vec::new(),
            port_idx: 0,
            baud_idx: 7,
            boot_mode: IspBootMode::Manual,
            file_path: String::new(),
            file_cursor: 0,
            field: IspConfigField::Port,
        };
        proof {
            assert(s.port_list.deep_view() =~= Seq::<Seq<char>>::empty());
            assert(is_boundary(s.file_path@, 0));
        }
        s
    }

    /// Types `c` into the firmware path.
    pub fn file_input_char(&mut self, c: char)
        requires
            old(self).wf(),
            field_has_room(old(self).file_path@),
        ensures
            final(self).wf(),
            final(self)@ == (UsartIspView {
                file_path: after_input_char(old(self).file_path@, old(self).file_cursor as int, c).0,
                file_cursor: after_input_char(
                    old(self).file_path@,
                    old(self).file_cursor as int,
                    c,
                ).1 as usize,
                ..old(self)@
            }),
    {
        text_input_char(&mut self.file_path, &mut self.file_cursor, c);
    }

    /// Deletes the character before the cursor in the firmware path.
    pub fn file_backspace(&mut self)
        requires
            old(self).wf(),
        ensures
            final(self).wf(),
            final(self)@ == (UsartIspView {
                file_path: after_backspace(old(self).file_path@, old(self).file_cursor as int).0,
                file_cursor: after_backspace(old(self).file_path@, old(self).file_cursor as int).1 as usize,
                ..old(self)@
            }),
    {
        proof {
            crate::widgets::lemma_backspace_shrinks(self.file_path@, self.file_cursor as int);
        }
        text_backspace(&mut self.file_path, &mut self.file_cursor);
    }

    /// Moves the path cursor one character left.
    pub fn file_cursor_left(&mut self)
        requires
            old(self).wf(),
        ensures
            final(self).wf(),
            final(self)@ == (UsartIspView {
                file_cursor: cursor_after_left(old(self).file_path@, old(self).file_cursor as int) as usize,
                ..old(self)@
            }),
    {
        text_cursor_left(self.file_path.as_str(), &mut self.file_cursor);
    }

    /// Moves the path cursor one character right.
    pub fn file_cursor_right(&mut self)
        requires
            old(self).wf(),
        ensures
            final(self).wf(),
            final(self)@ == (UsartIspView {
                file_cursor: cursor_after_right(old(self).file_path@, old(self).file_cursor as int) as usize,
                ..old(self)@
            }),
    {
        proof {
            crate::text::lemma_char_index_at_range(self.file_path@, self.file_cursor as int);
            crate::text::lemma_utf8_len_full(self.file_path@);
        }
        text_cursor_right(self.file_path.as_str(), &mut self.file_cursor);
    }

    /// Moves the path cursor to the start.
    pub fn file_cursor_home(&mut self)
        requires
            old(self).wf(),
        ensures
            final(self).wf(),
            final(self)@ == (UsartIspView { file_cursor: 0, ..old(self)@ }),
    {
        text_cursor_home(&mut self.file_cursor);
        proof {
            assert(is_boundary(self.file_path@, 0));
        }
    }

    /// Moves the path cursor to the end.
    pub fn file_cursor_end(&mut self)
        requires
            old(self).wf(),
        ensures
            final(self).wf(),
            final(self)@ == (UsartIspView {
                file_cursor: utf8_len(old(self).file_path@) as usize,
                ..old(self)@
            }),
    {
        proof {
            crate::text::lemma_utf8_len_full(self.file_path@);
        }
        text_cursor_end(self.file_path.as_str(), &mut self.file_cursor);
    }
}

/// The default BIN base address text, with the cursor after its last
/// character.
proof fn lemma_default_base_address()
    ensures
        field_ok("0x08000000"@, 10),
{
    reveal_strlit("0x08000000");
    let s = "0x08000000"@;
    reveal_with_fuel(utf8_len, 11);
    assert(s.take(10) =~= s);
    crate::text::lemma_char_index_at(s, 10, 10);
}

/// What the JTAG form holds.
pub struct JtagFlashView {
    pub probe_list: Seq<Seq<char>>,
    pub probe_idx: usize,
    pub speed_idx: usize,
    pub verify: bool,
    pub reset_run: bool,
    pub bin_base_address: Seq<char>,
    pub bin_base_cursor: usize,
    pub chip_preset_idx: usize,
    pub chip_name: Seq<char>,
    pub chip_cursor: usize,
    pub file_path: Seq<char>,
    pub file_cursor: usize,
    pub field: JtagConfigField,
}

/// The JTAG form.
pub struct JtagFlashState {
    pub probe_list: Vec<String>,
    pub probe_idx: usize,
    pub speed_idx: usize,
    pub verify: bool,
    pub reset_run: bool,
    pub bin_base_address: String,
    pub bin_base_cursor: usize,
    pub chip_preset_idx: usize,
    pub chip_name: String,
    pub chip_cursor: usize,
    pub file_path: String,
    pub file_cursor: usize,
    pub field: JtagConfigField,
}

impl View for JtagFlashState {
    type V = JtagFlashView;

    open spec fn view(&self) -> JtagFlashView {
        JtagFlashView {
            probe_list: self.probe_list.deep_view(),
            probe_idx: self.probe_idx,
            speed_idx: self.speed_idx,
            verify: self.verify,
            reset_run: self.reset_run,
            bin_base_address: self.bin_base_address@,
            bin_base_cursor: self.bin_base_cursor,
            chip_preset_idx: self.chip_preset_idx,
            chip_name: self.chip_name@,
            chip_cursor: self.chip_cursor,
            file_path: self.file_path@,
            file_cursor: self.file_cursor,
            field: self.field,
        }
    }
}

impl JtagFlashState {
    /// The form's text cursors are on boundaries and its indices name presets.
    pub open spec fn wf(&self) -> bool {
        &&& field_ok(self.bin_base_address@, self.bin_base_cursor)
        &&& field_ok(self.chip_name@, self.chip_cursor)
        &&& field_ok(self.file_path@, self.file_cursor)
        &&& self.speed_idx < SPEED_PRESET_COUNT
        &&& self.chip_preset_idx < CHIP_PRESET_COUNT
    }

    /// What `new` returns.
    pub open spec fn new_view() -> JtagFlashView {
        JtagFlashView {
            probe_list: Seq::empty(),
            probe_idx: 0,
            speed_idx: 2,
            verify: true,
            reset_run: true,
            bin_base_address: "0x08000000"@,
            bin_base_cursor: 10,
            chip_preset_idx: 0,
            chip_name: Seq::empty(),
            chip_cursor: 0,
            file_path: Seq::empty(),
            file_cursor: 0,
            field: JtagConfigField::Probe,
        }
    }

    /// A fresh form: 1000 kHz, verify and reset-and-run on, BIN base
    /// `0x08000000`, custom chip, no file.
    pub fn new() -> (s: JtagFlashState)
        ensures
            s@ == Self::new_view(),
            s.wf(),
    {
        let s = JtagFlashState {
            probe_list: Vec::new(),
            probe_idx: 0,
            speed_idx: 2,
            verify: true,
            reset_run: true,
            bin_base_address: String::from_str("0x08000000"),
            bin_base_cursor: 10,
            chip_preset_idx: 0,
            chip_name: String::new(),
            chip_cursor: 0,
            file_path: String::new(),
            file_cursor: 0,
            field: JtagConfigField::Probe,
        };
        proof {
            assert(s.probe_list.deep_view() =~= Seq::<Seq<char>>::empty());
            assert(is_boundary(s.chip_name@, 0));
            assert(is_boundary(s.file_path@, 0));
            lemma_default_base_address();
        }
        s
    }

    /// Types `c` into the chip name.
    pub fn chip_input_char(&mut self, c: char)
        requires
            old(self).wf(),
            field_has_room(old(self).chip_name@),
        ensures
            final(self).wf(),
            final(self)@ == (JtagFlashView {
                chip_name: after_input_char(old(self).chip_name@, old(self).chip_cursor as int, c).0,
                chip_cursor: after_input_char(old(self).chip_name@, old(self).chip_cursor as int, c).1 as usize,
                ..old(self)@
            }),
    {
        text_input_char(&mut self.chip_name, &mut self.chip_cursor, c);
    }

    /// Deletes the character before the cursor in the chip name.
    pub fn chip_backspace(&mut self)
        requires
            old(self).wf(),
        ensures
            final(self).wf(),
            final(self)@ == (JtagFlashView {
                chip_name: after_backspace(old(self).chip_name@, old(self).chip_cursor as int).0,
                chip_cursor: after_backspace(old(self).chip_name@, old(self).chip_cursor as int).1 as usize,
                ..old(self)@
            }),
    {
        proof {
            crate::widgets::lemma_backspace_shrinks(self.chip_name@, self.chip_cursor as int);
        }
        text_backspace(&mut self.chip_name, &mut self.chip_cursor);
    }

    /// Types `c` into the firmware path.
    pub fn file_input_char(&mut self, c: char)
        requires
            old(self).wf(),
            field_has_room(old(self).file_path@),
        ensures
            final(self).wf(),
            final(self)@ == (JtagFlashView {
                file_path: after_input_char(old(self).file_path@, old(self).file_cursor as int, c).0,
                file_cursor: after_input_char(old(self).file_path@, old(self).file_cursor as int, c).1 as usize,
                ..old(self)@
            }),
    {
        text_input_char(&mut self.file_path, &mut self.file_cursor, c);
    }

    /// Deletes the character before the cursor in the firmware path.
    pub fn file_backspace(&mut self)
        requires
            old(self).wf(),
        ensures
            final(self).wf(),
            final(self)@ == (JtagFlashView {
                file_path: after_backspace(old(self).file_path@, old(self).file_cursor as int).0,
                file_cursor: after_backspace(old(self).file_path@, old(self).file_cursor as int).1 as usize,
                ..old(self)@
            }),
    {
        proof {
            crate::widgets::lemma_backspace_shrinks(self.file_path@, self.file_cursor as int);
        }
        text_backspace(&mut self.file_path, &mut self.file_cursor);
    }

    /// Types `c` into the BIN base address.
    pub fn bin_base_input_char(&mut self, c: char)
        requires
            old(self).wf(),
            field_has_room(old(self).bin_base_address@),
        ensures
            final(self).wf(),
            final(self)@ == (JtagFlashView {
                bin_base_address: after_input_char(old(self).bin_base_address@, old(self).bin_base_cursor as int, c).0,
                bin_base_cursor: after_input_char(old(self).bin_base_address@, old(self).bin_base_cursor as int, c).1 as usize,
                ..old(self)@
            }),
    {
        text_input_char(&mut self.bin_base_address, &mut self.bin_base_cursor, c);
    }

    /// Deletes the character before the cursor in the BIN base address.
    pub fn bin_base_backspace(&mut self)
        requires
            old(self).wf(),
        ensures
            final(self).wf(),
            final(self)@ == (JtagFlashView {
                bin_base_address: after_backspace(old(self).bin_base_address@, old(self).bin_base_cursor as int).0,
                bin_base_cursor: after_backspace(old(self).bin_base_address@, old(self).bin_base_cursor as int).1 as usize,
                ..old(self)@
            }),
    {
        proof {
            crate::widgets::lemma_backspace_shrinks(self.bin_base_address@, self.bin_base_cursor as int);
        }
        text_backspace(&mut self.bin_base_address, &mut self.bin_base_cursor);
    }
}

/// What the SWD form holds.
pub struct SwdFlashView {
    pub probe_list: Seq<Seq<char>>,
    pub probe_idx: usize,
    pub speed_idx: usize,
    pub connect_mode: SwdConnectMode,
    pub verify: bool,
    pub reset_run: bool,
    pub bin_base_address: Seq<char>,
    pub bin_base_cursor: usize,
    pub chip_preset_idx: usize,
    pub chip_name: Seq<char>,
    pub chip_cursor: usize,
    pub file_path: Seq<char>,
    pub file_cursor: usize,
    pub field: SwdConfigField,
}

/// The SWD form.
pub struct SwdFlashState {
    pub probe_list: Vec<String>,
    pub probe_idx: usize,
    pub speed_idx: usize,
    pub connect_mode: SwdConnectMode,
    pub verify: bool,
    pub reset_run: bool,
    pub bin_base_address: String,
    pub bin_base_cursor: usize,
    pub chip_preset_idx: usize,
    pub chip_name: String,
    pub chip_cursor: usize,
    pub file_path: String,
    pub file_cursor: usize,
    pub field: SwdConfigField,
}

impl View for SwdFlashState {
    type V = SwdFlashView;

    open spec fn view(&self) -> SwdFlashView {
        SwdFlashView {
            probe_list: self.probe_list.deep_view(),
            probe_idx: self.probe_idx,
            speed_idx: self.speed_idx,
            connect_mode: self.connect_mode,
            verify: self.verify,
            reset_run: self.reset_run,
            bin_base_address: self.bin_base_address@,
            bin_base_cursor: self.bin_base_cursor,
            chip_preset_idx: self.chip_preset_idx,
            chip_name: self.chip_name@,
            chip_cursor: self.chip_cursor,
            file_path: self.file_path@,
            file_cursor: self.file_cursor,
            field: self.field,
        }
    }
}

impl SwdFlashState {
    /// The form's text cursors are on boundaries and its indices name presets.
    pub open spec fn wf(&self) -> bool {
        &&& field_ok(self.bin_base_address@, self.bin_base_cursor)
        &&& field_ok(self.chip_name@, self.chip_cursor)
        &&& field_ok(self.file_path@, self.file_cursor)
        &&& self.speed_idx < SPEED_PRESET_COUNT
        &&& self.chip_preset_idx < CHIP_PRESET_COUNT
    }

    /// What `new` returns.
    pub open spec fn new_view() -> SwdFlashView {
        SwdFlashView {
            probe_list: Seq::empty(),
            probe_idx: 0,
            speed_idx: 2,
            connect_mode: SwdConnectMode::Normal,
            verify: true,
            reset_run: true,
            bin_base_address: "0x08000000"@,
            bin_base_cursor: 10,
            chip_preset_idx: 0,
            chip_name: Seq::empty(),
            chip_cursor: 0,
            file_path: Seq::empty(),
            file_cursor: 0,
            field: SwdConfigField::Probe,
        }
    }

    /// A fresh form: 1000 kHz, verify and reset-and-run on, BIN base
    /// `0x08000000`, custom chip, no file.
    pub fn new() -> (s: SwdFlashState)
        ensures
            s@ == Self::new_view(),
            s.wf(),
    {
        let s = SwdFlashState {
            probe_list: Vec::new(),
            probe_idx: 0,
            speed_idx: 2,
            connect_mode: SwdConnectMode::Normal,
            verify: true,
            reset_run: true,
            bin_base_address: String::from_str("0x08000000"),
            bin_base_cursor: 10,
            chip_preset_idx: 0,
            chip_name: String::new(),
            chip_cursor: 0,
            file_path: String::new(),
            file_cursor: 0,
            field: SwdConfigField::Probe,
        };
        proof {
            assert(s.probe_list.deep_view() =~= Seq::<Seq<char>>::empty());
            assert(is_boundary(s.chip_name@, 0));
            assert(is_boundary(s.file_path@, 0));
            lemma_default_base_address();
        }
        s
    }

    /// Types `c` into the chip name.
    pub fn chip_input_char(&mut self, c: char)
        requires
            old(self).wf(),
            field_has_room(old(self).chip_name@),
        ensures
            final(self).wf(),
            final(self)@ == (SwdFlashView {
                chip_name: after_input_char(old(self).chip_name@, old(self).chip_cursor as int, c).0,
                chip_cursor: after_input_char(old(self).chip_name@, old(self).chip_cursor as int, c).1 as usize,
                ..old(self)@
            }),
    {
        text_input_char(&mut self.chip_name, &mut self.chip_cursor, c);
    }

    /// Deletes the character before the cursor in the chip name.
    pub fn chip_backspace(&mut self)
        requires
            old(self).wf(),
        ensures
            final(self).wf(),
            final(self)@ == (SwdFlashView {
                chip_name: after_backspace(old(self).chip_name@, old(self).chip_cursor as int).0,
                chip_cursor: after_backspace(old(self).chip_name@, old(self).chip_cursor as int).1 as usize,
                ..old(self)@
            }),
    {
        proof {
            crate::widgets::lemma_backspace_shrinks(self.chip_name@, self.chip_cursor as int);
        }
        text_backspace(&mut self.chip_name, &mut self.chip_cursor);
    }

    /// Types `c` into the firmware path.
    pub fn file_input_char(&mut self, c: char)
        requires
            old(self).wf(),
            field_has_room(old(self).file_path@),
        ensures
            final(self).wf(),
            final(self)@ == (SwdFlashView {
                file_path: after_input_char(old(self).file_path@, old(self).file_cursor as int, c).0,
                file_cursor: after_input_char(old(self).file_path@, old(self).file_cursor as int, c).1 as usize,
                ..old(self)@
            }),
    {
        text_input_char(&mut self.file_path, &mut self.file_cursor, c);
    }

    /// Deletes the character before the cursor in the firmware path.
    pub fn file_backspace(&mut self)
        requires
            old(self).wf(),
        ensures
            final(self).wf(),
            final(self)@ == (SwdFlashView {
                file_path: after_backspace(old(self).file_path@, old(self).file_cursor as int).0,
                file_cursor: after_backspace(old(self).file_path@, old(self).file_cursor as int).1 as usize,
                ..old(self)@
            }),
    {
        proof {
            crate::widgets::lemma_backspace_shrinks(self.file_path@, self.file_cursor as int);
        }
        text_backspace(&mut self.file_path, &mut self.file_cursor);
    }

    /// Types `c` into the BIN base address.
    pub fn bin_base_input_char(&mut self, c: char)
        requires
            old(self).wf(),
            field_has_room(old(self).bin_base_address@),
        ensures
            final(self).wf(),
            final(self)@ == (SwdFlashView {
                bin_base_address: after_input_char(old(self).bin_base_address@, old(self).bin_base_cursor as int, c).0,
                bin_base_cursor: after_input_char(old(self).bin_base_address@, old(self).bin_base_cursor as int, c).1 as usize,
                ..old(self)@
            }),
    {
        text_input_char(&mut self.bin_base_address, &mut self.bin_base_cursor, c);
    }

    /// Deletes the character before the cursor in the BIN base address.
    pub fn bin_base_backspace(&mut self)
        requires
            old(self).wf(),
        ensures
            final(self).wf(),
            final(self)@ == (SwdFlashView {
                bin_base_address: after_backspace(old(self).bin_base_address@, old(self).bin_base_cursor as int).0,
                bin_base_cursor: after_backspace(old(self).bin_base_address@, old(self).bin_base_cursor as int).1 as usize,
                ..old(self)@
            }),
    {
        proof {
            crate::widgets::lemma_backspace_shrinks(self.bin_base_address@, self.bin_base_cursor as int);
        }
        text_backspace(&mut self.bin_base_address, &mut self.bin_base_cursor);
    }
}

/// A serial monitor connection to restore once flashing is over.
pub struct SerialMonitorRestore {
    pub port_name: String,
    pub serial_config: SerialConfig,
}

/// What a restore plan holds.
pub open spec fn restore_view(r: Option<SerialMonitorRestore>) -> Option<(Seq<char>, SerialConfigView)> {
    match r {
        Some(x) => Some((x.port_name@, x.serial_config@)),
        None => None,
    }
}

/// What the flashing workbench holds.
pub struct FlasherView {
    pub sub_screen: FlasherSubScreen,
    pub method: FlasherMethod,
    pub usart_isp: UsartIspView,
    pub jtag: JtagFlashView,
    pub swd: SwdFlashView,
    pub log: Seq<Seq<char>>,
    pub log_scroll: usize,
    pub log_visible_rows: u16,
    pub progress_pct: Option<u8>,
    pub op_done: bool,
    pub op_ok: bool,
    pub cancel_armed: bool,
    pub has_stop_flag: bool,
    pub serial_monitor_restore: Option<(Seq<char>, SerialConfigView)>,
}

/// The flashing workbench: the three forms, and the log and progress of
/// the operation started last.
pub struct FlasherState {
    pub sub_screen: FlasherSubScreen,
    pub method: FlasherMethod,
    pub usart_isp: UsartIspState,
    pub jtag: JtagFlashState,
    pub swd: SwdFlashState,
    pub log: Vec<String>,
    pub log_scroll: usize,
    /// Rows of the log panel, as last drawn.
    pub log_visible_rows: u16,
    pub progress_pct: Option<u8>,
    pub op_done: bool,
    pub op_ok: bool,
    pub cancel_armed: bool,
    pub stop_flag: Option<Arc<AtomicBool>>,
    pub serial_monitor_restore: Option<SerialMonitorRestore>,
}

impl View for FlasherState {
    type V = FlasherView;

    open spec fn view(&self) -> FlasherView {
        FlasherView {
            sub_screen: self.sub_screen,
            method: self.method,
            usart_isp: self.usart_isp@,
            jtag: self.jtag@,
            swd: self.swd@,
            log: self.log.deep_view(),
            log_scroll: self.log_scroll,
            log_visible_rows: self.log_visible_rows,
            progress_pct: self.progress_pct,
            op_done: self.op_done,
            op_ok: self.op_ok,
            cancel_armed: self.cancel_armed,
            has_stop_flag: self.stop_flag is Some,
            serial_monitor_restore: restore_view(self.serial_monitor_restore),
        }
    }
}

/// `a` clamped to at most `b`.
pub open spec fn min_usize(a: usize, b: usize) -> usize {
    if a <= b {
        a
    } else {
        b
    }
}

/// `n - d`, or 0 when `d` is larger.
pub open spec fn sat_sub(n: int, d: int) -> usize {
    if n >= d {
        (n - d) as usize
    } else {
        0
    }
}

/// Largest scroll offset of a log of `len` lines shown in `rows` rows.
pub open spec fn max_log_scroll(len: nat, rows: u16) -> usize {
    sat_sub(len as int, rows as int)
}

/// Placeholder listed when no serial port exists.
pub open spec fn no_ports_text() -> Seq<char> {
    "(no ports found)"@
}

impl FlasherState {
    /// The three forms are well formed.
    pub open spec fn wf(&self) -> bool {
        self.usart_isp.wf() && self.jtag.wf() && self.swd.wf()
    }

    /// What `new` returns: the USART ISP form showing, fresh forms, an
    /// empty log and no operation.
    pub open spec fn new_view() -> FlasherView {
        FlasherView {
            sub_screen: FlasherSubScreen::Config,
            method: FlasherMethod::UsartIsp,
            usart_isp: UsartIspState::new_view(),
            jtag: JtagFlashState::new_view(),
            swd: SwdFlashState::new_view(),
            log: Seq::empty(),
            log_scroll: 0,
            log_visible_rows: 20,
            progress_pct: None,
            op_done: false,
            op_ok: false,
            cancel_armed: false,
            has_stop_flag: false,
            serial_monitor_restore: None,
        }
    }

    /// A workbench showing the USART ISP form, with an empty log.
    pub fn new() -> (s: FlasherState)
        ensures
            s.wf(),
            s@ == Self::new_view(),
    {
        let s = FlasherState {
            sub_screen: FlasherSubScreen::Config,
            method: FlasherMethod::UsartIsp,
            usart_isp: UsartIspState::new(),
            jtag: JtagFlashState::new(),
            swd: SwdFlashState::new(),
            log: Vec::new(),
            log_scroll: 0,
            log_visible_rows: 20,
            progress_pct: None,
            op_done: false,
            op_ok: false,
            cancel_armed: false,
            stop_flag: None,
            serial_monitor_restore: None,
        };
        proof {
            assert(s.log.deep_view() =~= Seq::<Seq<char>>::empty());
        }
        s
    }

    /// Resets the progress view for a new operation and shows it.
    pub fn enter_progress(&mut self)
        ensures
            final(self)@ == (FlasherView {
                sub_screen: FlasherSubScreen::Progress,
                log: Seq::empty(),
                log_scroll: 0,
                progress_pct: None,
                op_done: false,
                op_ok: false,
                cancel_armed: false,
                has_stop_flag: false,
                ..old(self)@
            }),
            final(self).usart_isp == old(self).usart_isp,
            final(self).jtag == old(self).jtag,
            final(self).swd == old(self).swd,
    {
        self.sub_screen = FlasherSubScreen::Progress;
        self.log.clear();
        self.log_scroll = 0;
        self.progress_pct = None;
        self.op_done = false;
        self.op_ok = false;
        self.cancel_armed = false;
        self.stop_flag = None;
        proof {
            assert(self.log.deep_view() =~= Seq::<Seq<char>>::empty());
        }
    }

    /// Asks the running operation to stop (raising its stop flag, which is
    /// then dropped) and disarms the cancel confirmation.
    pub fn request_stop(&mut self)
        ensures
            final(self)@ == (FlasherView { cancel_armed: false, has_stop_flag: false, ..old(self)@ }),
            final(self).usart_isp == old(self).usart_isp,
            final(self).jtag == old(self).jtag,
            final(self).swd == old(self).swd,
    {
        let flag = self.stop_flag.take();
        if let Some(f) = flag {
            f.store(true, std::sync::atomic::Ordering::Relaxed);
        }
        self.cancel_armed = false;
    }
}

impl UsartIspState {
    /// What `new` returns.
    pub open spec fn new_view() -> UsartIspView {
        UsartIspView {
            port_list: Seq::empty(),
            port_idx: 0,
            baud_idx: 7,
            boot_mode: IspBootMode::Manual,
            file_path: Seq::empty(),
            file_cursor: 0,
            field: IspConfigField::Port,
        }
    }
}

/// How a debug probe is listed: its position, `": "`, and its description.
pub open spec fn probe_choice(i: nat, description: Seq<char>) -> Seq<char> {
    decimal_text(i) + ": "@ + description
}

/// Placeholder listed when no debug probe is attached.
pub open spec fn no_probes_text() -> Seq<char> {
    "(no probes found)"@
}

/// The probe list shown for the attached probes' descriptions: each
/// numbered by its position, or the "(no probes found)" entry alone.
pub fn probe_choices(descriptions: Vec<String>) -> (v: Vec<String>)
    ensures
        descriptions@.len() == 0 ==> v.deep_view() == seq![no_probes_text()],
        descriptions@.len() > 0 ==> v@.len() == descriptions@.len() && forall|i: int|
            0 <= i < v@.len() ==> #[trigger] v@[i]@ == probe_choice(i as nat, descriptions@[i]@),
{
    let mut v: Vec<String> = Vec::new();
    if descriptions.len() == 0 {
        v.push(String::from_str("(no probes found)"));
        proof {
            assert(v.deep_view() =~= seq![no_probes_text()]);
        }
        return v;
    }
    let mut i: usize = 0;
    while i < descriptions.len()
        invariant
            i <= descriptions@.len(),
            v@.len() == i,
            forall|j: int| 0 <= j < i ==> #[trigger] v@[j]@ == probe_choice(j as nat, descriptions@[j]@),
        decreases descriptions@.len() - i,
    {
        let mut line = String::new();
        push_decimal(&mut line, i as u64);
        line.append(": ");
        line.append(descriptions[i].as_str());
        v.push(line);
        i = i + 1;
    }
    v
}

impl FlasherState {
    /// Replaces the JTAG probe list and keeps the selection inside it.
    #[verifier::rlimit(50)]
    pub fn refresh_jtag_probes(&mut self, probes: Vec<String>)
        requires
            old(self).wf(),
        ensures
            final(self).wf(),
            final(self)@ == (FlasherView {
                jtag: JtagFlashView {
                    probe_list: probes.deep_view(),
                    probe_idx: min_usize(old(self).jtag.probe_idx, sat_sub(probes@.len() as int, 1)),
                    ..old(self)@.jtag
                },
                ..old(self)@
            }),
    {
        let last = if probes.len() == 0 { 0 } else { probes.len() - 1 };
        self.jtag.probe_list = probes;
        if self.jtag.probe_idx > last {
            self.jtag.probe_idx = last;
        }
    }

    /// Replaces the SWD probe list and keeps the selection inside it.
    #[verifier::rlimit(50)]
    pub fn refresh_swd_probes(&mut self, probes: Vec<String>)
        requires
            old(self).wf(),
        ensures
            final(self).wf(),
            final(self)@ == (FlasherView {
                swd: SwdFlashView {
                    probe_list: probes.deep_view(),
                    probe_idx: min_usize(old(self).swd.probe_idx, sat_sub(probes@.len() as int, 1)),
                    ..old(self)@.swd
                },
                ..old(self)@
            }),
    {
        let last = if probes.len() == 0 { 0 } else { probes.len() - 1 };
        self.swd.probe_list = probes;
        if self.swd.probe_idx > last {
            self.swd.probe_idx = last;
        }
    }

    /// The USART ISP form showing the given serial ports.
    pub open spec fn isp_form_with_ports(form: UsartIspView, devices: Seq<Seq<char>>) -> UsartIspView {
        let ports = if devices.len() == 0 {
            seq![no_ports_text()]
        } else {
            devices
        };
        UsartIspView {
            port_list: ports,
            port_idx: min_usize(form.port_idx, (ports.len() - 1) as usize),
            field: IspConfigField::Port,
            ..form
        }
    }

    #[verifier::rlimit(50)]
    fn open_isp_form(&mut self, devices: Vec<String>)
        requires
            old(self).wf(),
        ensures
            final(self).wf(),
            final(self)@ == (FlasherView {
                usart_isp: Self::isp_form_with_ports(old(self)@.usart_isp, devices.deep_view()),
                ..old(self)@
            }),
    {
        let ghost dv = devices.deep_view();
        let mut ports = devices;
        if ports.len() == 0 {
            ports.push(String::from_str("(no ports found)"));
            proof {
                assert(ports.deep_view() =~= seq![no_ports_text()]);
            }
        }
        let last = ports.len() - 1;
        self.usart_isp.port_list = ports;
        if self.usart_isp.port_idx > last {
            self.usart_isp.port_idx = last;
        }
        self.usart_isp.field = IspConfigField::Port;
    }

    #[verifier::rlimit(50)]
    fn open_jtag_form(&mut self, devices: Vec<String>)
        requires
            old(self).wf(),
        ensures
            final(self).wf(),
            final(self)@ == (FlasherView {
                jtag: JtagFlashView {
                    probe_list: devices.deep_view(),
                    probe_idx: min_usize(old(self).jtag.probe_idx, sat_sub(devices@.len() as int, 1)),
                    chip_preset_idx: min_usize(old(self).jtag.chip_preset_idx, 11),
                    field: JtagConfigField::Probe,
                    ..old(self)@.jtag
                },
                ..old(self)@
            }),
    {
        self.refresh_jtag_probes(devices);
        if self.jtag.chip_preset_idx > CHIP_PRESET_COUNT - 1 {
            self.jtag.chip_preset_idx = CHIP_PRESET_COUNT - 1;
        }
        self.jtag.field = JtagConfigField::Probe;
    }

    #[verifier::rlimit(50)]
    fn open_swd_form(&mut self, devices: Vec<String>)
        requires
            old(self).wf(),
        ensures
            final(self).wf(),
            final(self)@ == (FlasherView {
                swd: SwdFlashView {
                    probe_list: devices.deep_view(),
                    probe_idx: min_usize(old(self).swd.probe_idx, sat_sub(devices@.len() as int, 1)),
                    chip_preset_idx: min_usize(old(self).swd.chip_preset_idx, 11),
                    field: SwdConfigField::Probe,
                    ..old(self)@.swd
                },
                ..old(self)@
            }),
    {
        self.refresh_swd_probes(devices);
        if self.swd.chip_preset_idx > CHIP_PRESET_COUNT - 1 {
            self.swd.chip_preset_idx = CHIP_PRESET_COUNT - 1;
        }
        self.swd.field = SwdConfigField::Probe;
    }

    /// Opens the form of `method`: the serial ports (for USART ISP) or the
    /// probes (for JTAG and SWD) are the ones given, selections are kept
    /// inside their lists and focus goes to the first field. An empty port
    /// list shows a "(no ports found)" entry.
    pub fn enter_protocol_config(&mut self, method: FlasherMethod, devices: Vec<String>)
        requires
            old(self).wf(),
        ensures
            final(self).wf(),
            method == FlasherMethod::UsartIsp ==> final(self)@ == (FlasherView {
                sub_screen: FlasherSubScreen::Config,
                method,
                usart_isp: Self::isp_form_with_ports(old(self)@.usart_isp, devices.deep_view()),
                ..old(self)@
            }),
            method == FlasherMethod::Jtag ==> final(self)@ == (FlasherView {
                sub_screen: FlasherSubScreen::Config,
                method,
                jtag: JtagFlashView {
                    probe_list: devices.deep_view(),
                    probe_idx: min_usize(old(self).jtag.probe_idx, sat_sub(devices@.len() as int, 1)),
                    chip_preset_idx: min_usize(old(self).jtag.chip_preset_idx, 11),
                    field: JtagConfigField::Probe,
                    ..old(self)@.jtag
                },
                ..old(self)@
            }),
            method == FlasherMethod::Swd ==> final(self)@ == (FlasherView {
                sub_screen: FlasherSubScreen::Config,
                method,
                swd: SwdFlashView {
                    probe_list: devices.deep_view(),
                    probe_idx: min_usize(old(self).swd.probe_idx, sat_sub(devices@.len() as int, 1)),
                    chip_preset_idx: min_usize(old(self).swd.chip_preset_idx, 11),
                    field: SwdConfigField::Probe,
                    ..old(self)@.swd
                },
                ..old(self)@
            }),
    {
        self.method = method;
        self.sub_screen = FlasherSubScreen::Config;
        match method {
            FlasherMethod::UsartIsp => self.open_isp_form(devices),
            FlasherMethod::Jtag => self.open_jtag_form(devices),
            FlasherMethod::Swd => self.open_swd_form(devices),
        }
    }

    /// Remembers a serial monitor connection to restore after flashing.
    pub fn plan_serial_monitor_restore(&mut self, serial_config: SerialConfig)
        ensures
            final(self)@ == (FlasherView {
                serial_monitor_restore: Some((serial_config@.port_name, serial_config@)),
                ..old(self)@
            }),
            final(self).usart_isp == old(self).usart_isp,
            final(self).jtag == old(self).jtag,
            final(self).swd == old(self).swd,
    {
        let port_name = String::from_str(serial_config.port_name.as_str());
        self.serial_monitor_restore = Some(SerialMonitorRestore { port_name, serial_config });
    }

    /// Forgets any planned restore.
    pub fn clear_serial_monitor_restore(&mut self)
        ensures
            final(self)@ == (FlasherView { serial_monitor_restore: None, ..old(self)@ }),
            final(self).usart_isp == old(self).usart_isp,
            final(self).jtag == old(self).jtag,
            final(self).swd == old(self).swd,
    {
        self.serial_monitor_restore = None;
    }

    /// Hands out the planned restore, if any, and forgets it.
    pub fn take_serial_monitor_restore(&mut self) -> (r: Option<SerialMonitorRestore>)
        ensures
            restore_view(r) == old(self)@.serial_monitor_restore,
            final(self)@ == (FlasherView { serial_monitor_restore: None, ..old(self)@ }),
            final(self).usart_isp == old(self).usart_isp,
            final(self).jtag == old(self).jtag,
            final(self).swd == old(self).swd,
    {
        self.serial_monitor_restore.take()
    }

    /// The baud rate chosen in the USART ISP form.
    pub fn isp_baud(&self) -> (b: u32)
        requires
            self.wf(),
        ensures
            b == isp_baud_presets()[self.usart_isp.baud_idx as int],
    {
        isp_baud_preset(self.usart_isp.baud_idx)
    }

    /// The SWD clock chosen, in kHz.
    pub fn swd_speed_khz(&self) -> (k: u32)
        requires
            self.wf(),
        ensures
            k == speed_presets()[self.swd.speed_idx as int],
    {
        speed_preset(self.swd.speed_idx)
    }

    /// The JTAG clock chosen, in kHz.
    pub fn jtag_speed_khz(&self) -> (k: u32)
        requires
            self.wf(),
        ensures
            k == speed_presets()[self.jtag.speed_idx as int],
    {
        speed_preset(self.jtag.speed_idx)
    }

    /// The chip preset selected in the JTAG form.
    pub fn jtag_chip_preset(&self) -> (p: &'static str)
        requires
            self.wf(),
        ensures
            p@ == chip_presets()[self.jtag.chip_preset_idx as int],
    {
        chip_preset(self.jtag.chip_preset_idx)
    }

    /// The chip preset selected in the SWD form.
    pub fn swd_chip_preset(&self) -> (p: &'static str)
        requires
            self.wf(),
        ensures
            p@ == chip_presets()[self.swd.chip_preset_idx as int],
    {
        chip_preset(self.swd.chip_preset_idx)
    }

    /// Copies the selected JTAG chip preset into the chip name, cursor at
    /// its end; "Custom" leaves the name as it is.
    pub fn jtag_apply_chip_preset(&mut self)
        requires
            old(self).wf(),
        ensures
            final(self).wf(),
            old(self).jtag.chip_preset_idx == 0 ==> final(self)@ == old(self)@,
            old(self).jtag.chip_preset_idx != 0 ==> final(self)@ == (FlasherView {
                jtag: JtagFlashView {
                    chip_name: chip_presets()[old(self).jtag.chip_preset_idx as int],
                    chip_cursor: utf8_len(chip_presets()[old(self).jtag.chip_preset_idx as int]) as usize,
                    ..old(self)@.jtag
                },
                ..old(self)@
            }),
    {
        if self.jtag.chip_preset_idx == 0 {
            return;
        }
        let name = chip_preset(self.jtag.chip_preset_idx);
        let cursor = preset_name_len(self.jtag.chip_preset_idx);
        self.jtag.chip_name = String::from_str(name);
        self.jtag.chip_cursor = cursor;
    }

    /// Copies the selected SWD chip preset into the chip name, cursor at
    /// its end; "Custom" leaves the name as it is.
    pub fn swd_apply_chip_preset(&mut self)
        requires
            old(self).wf(),
        ensures
            final(self).wf(),
            old(self).swd.chip_preset_idx == 0 ==> final(self)@ == old(self)@,
            old(self).swd.chip_preset_idx != 0 ==> final(self)@ == (FlasherView {
                swd: SwdFlashView {
                    chip_name: chip_presets()[old(self).swd.chip_preset_idx as int],
                    chip_cursor: utf8_len(chip_presets()[old(self).swd.chip_preset_idx as int]) as usize,
                    ..old(self)@.swd
                },
                ..old(self)@
            }),
    {
        if self.swd.chip_preset_idx == 0 {
            return;
        }
        let name = chip_preset(self.swd.chip_preset_idx);
        let cursor = preset_name_len(self.swd.chip_preset_idx);
        self.swd.chip_name = String::from_str(name);
        self.swd.chip_cursor = cursor;
    }

    /// Scrolls the log `n` lines up, stopping at the top.
    pub fn scroll_log_up(&mut self, n: usize)
        ensures
            final(self)@ == (FlasherView { log_scroll: sat_sub(old(self).log_scroll as int, n as int), ..old(self)@ }),
            final(self).usart_isp == old(self).usart_isp,
            final(self).jtag == old(self).jtag,
            final(self).swd == old(self).swd,
            final(self).stop_flag == old(self).stop_flag,
    {
        self.log_scroll = self.log_scroll.saturating_sub(n);
    }

    /// Scrolls the log `n` lines down, stopping where its last line is at
    /// the bottom of the panel.
    pub fn scroll_log_down(&mut self, n: usize)
        requires
            old(self).log_scroll + n <= usize::MAX,
        ensures
            final(self)@ == (FlasherView {
                log_scroll: min_usize(
                    (old(self).log_scroll + n) as usize,
                    max_log_scroll(old(self)@.log.len(), old(self).log_visible_rows),
                ),
                ..old(self)@
            }),
            final(self).usart_isp == old(self).usart_isp,
            final(self).jtag == old(self).jtag,
            final(self).swd == old(self).swd,
            final(self).stop_flag == old(self).stop_flag,
    {
        let visible = self.log_visible_rows as usize;
        let max_scroll = self.log.len().saturating_sub(visible);
        let wanted = self.log_scroll + n;
        self.log_scroll = if wanted <= max_scroll { wanted } else { max_scroll };
    }

    /// Scrolls to the first log line.
    pub fn scroll_log_home(&mut self)
        ensures
            final(self)@ == (FlasherView { log_scroll: 0, ..old(self)@ }),
            final(self).usart_isp == old(self).usart_isp,
            final(self).jtag == old(self).jtag,
            final(self).swd == old(self).swd,
            final(self).stop_flag == old(self).stop_flag,
    {
        self.log_scroll = 0;
    }

    /// Scrolls so the last log line is at the bottom of the panel.
    pub fn scroll_log_end(&mut self)
        ensures
            final(self)@ == (FlasherView {
                log_scroll: max_log_scroll(old(self)@.log.len(), old(self).log_visible_rows),
                ..old(self)@
            }),
            final(self).usart_isp == old(self).usart_isp,
            final(self).jtag == old(self).jtag,
            final(self).swd == old(self).swd,
            final(self).stop_flag == old(self).stop_flag,
    {
        let visible = self.log_visible_rows as usize;
        self.log_scroll = self.log.len().saturating_sub(visible);
    }
}

/// Byte length of the chip preset at `idx` (all presets are ASCII).
fn preset_name_len(idx: usize) -> (n: usize)
    requires
        idx < CHIP_PRESET_COUNT,
    ensures
        n == utf8_len(chip_presets()[idx as int]),
        field_ok(chip_presets()[idx as int], n),
{
    let name = chip_preset(idx);
    proof {
        reveal_strlit("Custom");
        reveal_strlit("STM32F103C8");
        reveal_strlit("STM32F103ZE");
        reveal_strlit("STM32F407VE");
        reveal_strlit("STM32F407ZG");
        reveal_strlit("STM32F429ZI");
        reveal_strlit("STM32F767ZI");
        reveal_strlit("STM32H743ZI");
        reveal_strlit("STM32G431CB");
        reveal_strlit("STM32G474RE");
        reveal_strlit("STM32L431RC");
        reveal_strlit("STM32L476RG");
        reveal_with_fuel(utf8_len, 12);
        let s = name@;
        assert(s.take(s.len() as int) =~= s);
        crate::text::lemma_char_index_at(s, utf8_len(s) as int, s.len() as int);
    }
    if idx == 0 {
        6
    } else {
        11
    }
}

} // verus!

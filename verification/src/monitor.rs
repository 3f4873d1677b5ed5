//! The serial monitor: its options, the log of received, sent and status
//! lines, the line assembly of received bytes, the send line with its
//! history, and the setup form.

use vstd::prelude::*;
use vstd::utf8::encode_utf8;
use crate::serial_config::{
    BAUD_PRESET_COUNT, DataBits, default_config_view, FlowControl, Parity, SerialConfig, SerialConfigView, StopBits,
    baud_preset, baud_presets, data_bits_label, data_bits_options, data_bits_text, flow_control_label,
    flow_control_options, flow_control_text, parity_letter, parity_options, parity_short,
    stop_bits_label, stop_bits_options, stop_bits_text,
};
use crate::lossy::{CharStyle, decode_export_text, decode_utf8_display, lossy_text};
use crate::numfmt::{char_is_whitespace, hex_text, is_ws, parse_u64_in, parse_u64_radix, push_hex};
use crate::text::{is_boundary, utf8_len};
use crate::widgets::{after_backspace, after_input_char, cursor_after_left, cursor_after_right, text_backspace, text_cursor_end, text_cursor_left, text_cursor_right, text_input_char};

verus! {

/// Which panel of the monitor has the keyboard.
#[derive(Debug, Clone, Copy, PartialEq, Eq, Structural)]
pub enum Focus {
    Setup,
    Receive,
    Send,
    HelpOverlay,
}

/// How received data is shown.
#[derive(Debug, Clone, Copy, PartialEq, Eq, Structural)]
pub enum DisplayMode {
    Ascii,
    Hex,
    Both,
}

impl DisplayMode {
    /// The next mode: ASCII, HEX, both, and around again.
    pub fn next(self) -> (r: Self)
        ensures
            self == DisplayMode::Ascii ==> r == DisplayMode::Hex,
            self == DisplayMode::Hex ==> r == DisplayMode::Both,
            self == DisplayMode::Both ==> r == DisplayMode::Ascii,
    {
        match self {
            DisplayMode::Ascii => DisplayMode::Hex,
            DisplayMode::Hex => DisplayMode::Both,
            DisplayMode::Both => DisplayMode::Ascii,
        }
    }

    /// Name shown in the status bar.
    pub fn label(self) -> (s: &'static str)
        ensures
            self == DisplayMode::Ascii ==> s@ == "ASCII"@,
            self == DisplayMode::Hex ==> s@ == "HEX"@,
            self == DisplayMode::Both ==> s@ == "BOTH"@,
    {
        match self {
            DisplayMode::Ascii => "ASCII",
            DisplayMode::Hex => "HEX",
            DisplayMode::Both => "BOTH",
        }
    }
}

/// Line ending appended to each sent line.
#[derive(Debug, Clone, Copy, PartialEq, Eq, Structural)]
pub enum NewlineSuffix {
    NoSuffix,
    CR,
    LF,
    CRLF,
}

impl NewlineSuffix {
    /// The bytes of the suffix.
    pub open spec fn suffix_bytes(self) -> Seq<u8> {
        match self {
            NewlineSuffix::NoSuffix => Seq::empty(),
            NewlineSuffix::CR => seq![0x0Du8],
            NewlineSuffix::LF => seq![0x0Au8],
            NewlineSuffix::CRLF => seq![0x0Du8, 0x0Au8],
        }
    }

    /// Name shown in the send bar.
    pub fn label(self) -> (s: &'static str)
        ensures
            self == NewlineSuffix::NoSuffix ==> s@ == "None"@,
            self == NewlineSuffix::CR ==> s@ == "CR"@,
            self == NewlineSuffix::LF ==> s@ == "LF"@,
            self == NewlineSuffix::CRLF ==> s@ == "CRLF"@,
    {
        match self {
            NewlineSuffix::NoSuffix => "None",
            NewlineSuffix::CR => "CR",
            NewlineSuffix::LF => "LF",
            NewlineSuffix::CRLF => "CRLF",
        }
    }

    /// The bytes appended to a sent line.
    pub fn bytes(self) -> (b: Vec<u8>)
        ensures
            b@ == self.suffix_bytes(),
            self == NewlineSuffix::NoSuffix ==> b@.len() == 0,
            self == NewlineSuffix::CR ==> b@ == seq![0x0Du8],
            self == NewlineSuffix::LF ==> b@ == seq![0x0Au8],
            self == NewlineSuffix::CRLF ==> b@ == seq![0x0Du8, 0x0Au8],
    {
        let b = match self {
            NewlineSuffix::NoSuffix => Vec::new(),
            NewlineSuffix::CR => vec![0x0Du8],
            NewlineSuffix::LF => vec![0x0Au8],
            NewlineSuffix::CRLF => vec![0x0Du8, 0x0Au8],
        };
        proof {
            assert(b@ =~= self.suffix_bytes());
        }
        b
    }

    /// The next suffix: none, CR, LF, CRLF, and around again.
    pub fn cycle(self) -> (r: Self)
        ensures
            self == NewlineSuffix::NoSuffix ==> r == NewlineSuffix::CR,
            self == NewlineSuffix::CR ==> r == NewlineSuffix::LF,
            self == NewlineSuffix::LF ==> r == NewlineSuffix::CRLF,
            self == NewlineSuffix::CRLF ==> r == NewlineSuffix::NoSuffix,
    {
        match self {
            NewlineSuffix::NoSuffix => NewlineSuffix::CR,
            NewlineSuffix::CR => NewlineSuffix::LF,
            NewlineSuffix::LF => NewlineSuffix::CRLF,
            NewlineSuffix::CRLF => NewlineSuffix::NoSuffix,
        }
    }
}

/// Where a log line came from.
#[derive(Debug, Clone, Copy, PartialEq, Eq, Structural)]
pub enum Direction {
    Rx,
    Tx,
    Status,
}

/// Each line ending appends its own bytes to a sent line: none adds
/// nothing, CR a carriage return (0x0D), LF a line feed (0x0A), CRLF a
/// carriage return then a line feed. So a line sent with CR ends in exactly
/// one 0x0D after the payload, and no two settings send the same bytes.
pub proof fn law_newline_suffix_bytes(a: NewlineSuffix, b: NewlineSuffix, payload: Seq<u8>)
    ensures
        NewlineSuffix::NoSuffix.suffix_bytes().len() == 0,
        NewlineSuffix::CR.suffix_bytes() == seq![0x0Du8],
        NewlineSuffix::LF.suffix_bytes() == seq![0x0Au8],
        NewlineSuffix::CRLF.suffix_bytes() == seq![0x0Du8, 0x0Au8],
        (payload + NewlineSuffix::CR.suffix_bytes()).len() == payload.len() + 1,
        (payload + NewlineSuffix::CR.suffix_bytes()).last() == 0x0Du8,
        a != b ==> a.suffix_bytes() != b.suffix_bytes(),
{
    if a != b {
        let sa = a.suffix_bytes();
        let sb = b.suffix_bytes();
        if sa.len() == sb.len() && sa.len() > 0 {
            assert(sa[0] != sb[0] || sa.len() == 2);
            assert(sa[0] != sb[0]);
        }
    }
}

/// Fields of the setup form, in the order focus moves through them.
#[derive(Debug, Clone, Copy, PartialEq, Eq, Structural)]
pub enum ConfigField {
    PortName,
    BaudRate,
    DataBits,
    StopBits,
    Parity,
    FlowControl,
}

impl ConfigField {
    /// The field after this one, wrapping to the first.
    pub open spec fn successor(self) -> Self {
        match self {
            ConfigField::PortName => ConfigField::BaudRate,
            ConfigField::BaudRate => ConfigField::DataBits,
            ConfigField::DataBits => ConfigField::StopBits,
            ConfigField::StopBits => ConfigField::Parity,
            ConfigField::Parity => ConfigField::FlowControl,
            ConfigField::FlowControl => ConfigField::PortName,
        }
    }

    /// The field before this one, wrapping to the last.
    pub open spec fn predecessor(self) -> Self {
        match self {
            ConfigField::PortName => ConfigField::FlowControl,
            ConfigField::BaudRate => ConfigField::PortName,
            ConfigField::DataBits => ConfigField::BaudRate,
            ConfigField::StopBits => ConfigField::DataBits,
            ConfigField::Parity => ConfigField::StopBits,
            ConfigField::FlowControl => ConfigField::Parity,
        }
    }

    /// Position of the field in the form.
    pub open spec fn index(self) -> nat {
        match self {
            ConfigField::PortName => 0,
            ConfigField::BaudRate => 1,
            ConfigField::DataBits => 2,
            ConfigField::StopBits => 3,
            ConfigField::Parity => 4,
            ConfigField::FlowControl => 5,
        }
    }

    /// The field after this one, wrapping to the first.
    pub fn next(self) -> (r: Self)
        ensures
            r.index() == (self.index() + 1) % 6,
            r == self.successor(),
    {
        match self {
            ConfigField::PortName => ConfigField::BaudRate,
            ConfigField::BaudRate => ConfigField::DataBits,
            ConfigField::DataBits => ConfigField::StopBits,
            ConfigField::StopBits => ConfigField::Parity,
            ConfigField::Parity => ConfigField::FlowControl,
            ConfigField::FlowControl => ConfigField::PortName,
        }
    }

    /// The field before this one, wrapping to the last.
    pub fn prev(self) -> (r: Self)
        ensures
            r.index() == (self.index() + 5) % 6,
            r == self.predecessor(),
    {
        match self {
            ConfigField::PortName => ConfigField::FlowControl,
            ConfigField::BaudRate => ConfigField::PortName,
            ConfigField::DataBits => ConfigField::BaudRate,
            ConfigField::StopBits => ConfigField::DataBits,
            ConfigField::Parity => ConfigField::StopBits,
            ConfigField::FlowControl => ConfigField::Parity,
        }
    }
}

/// The setup form's fields cycle: next then previous (or previous then
/// next) gives back the field, and the display and suffix options come
/// back after three and four steps.
pub proof fn law_monitor_option_cycles(a: ConfigField, b: ConfigField, c: ConfigField)
    ensures
        b.index() == (a.index() + 1) % 6 && c.index() == (b.index() + 5) % 6 ==> c == a,
        b.index() == (a.index() + 5) % 6 && c.index() == (b.index() + 1) % 6 ==> c == a,
{
}

/// A line of the monitor log: when it was logged (local time, as
/// `YYYY-MM-DD HH:MM:SS.mmm`), its bytes and where it came from.
#[derive(Debug, Clone)]
pub struct LogEntry {
    pub stamp: String,
    pub raw: Vec<u8>,
    pub direction: Direction,
}

/// What a log line holds.
pub struct LogEntryView {
    pub stamp: Seq<char>,
    pub raw: Seq<u8>,
    pub direction: Direction,
}

impl View for LogEntry {
    type V = LogEntryView;

    open spec fn view(&self) -> LogEntryView {
        LogEntryView { stamp: self.stamp@, raw: self.raw@, direction: self.direction }
    }
}

/// The local time now, formatted by chrono as `%Y-%m-%d %H:%M:%S%.3f`.
/// Nothing is stated of it: it depends on the clock and the time zone.
#[verifier::external_body]
fn local_timestamp() -> String {
    chrono::Local::now().format("%Y-%m-%d %H:%M:%S%.3f").to_string()
}

/// A new log line stamped with the current local time.
pub fn new_log_entry(raw: Vec<u8>, direction: Direction) -> (e: LogEntry)
    ensures
        e.raw@ == raw@,
        e.direction == direction,
{
    LogEntry { stamp: local_timestamp(), raw, direction }
}

/// Most lines the monitor log keeps.
pub const MAX_LOG_ENTRIES: usize = 5000;

/// A received line is cut at this many bytes when no newline arrives.
pub const RX_LINE_LIMIT: usize = 1024;

/// The log as the monitor's logic sees it: each line's bytes and origin,
/// and the scroll offset.
pub struct LogModel {
    pub lines: Seq<(Seq<u8>, Direction)>,
    pub scroll: usize,
}

/// Lines and origins of log entries.
pub open spec fn log_lines(log: Seq<LogEntry>) -> Seq<(Seq<u8>, Direction)> {
    log.map_values(|e: LogEntry| (e.raw@, e.direction))
}

/// `n - d`, or 0 when `d` is larger.
pub open spec fn sub_or_zero(n: int, d: int) -> usize {
    if n >= d {
        (n - d) as usize
    } else {
        0
    }
}

/// The log after a line is appended: beyond 5000 lines the oldest go, and
/// the scroll offset moves up by as many lines.
pub open spec fn log_after_push(m: LogModel, raw: Seq<u8>, dir: Direction) -> LogModel {
    let lines = m.lines.push((raw, dir));
    if lines.len() > MAX_LOG_ENTRIES {
        let overflow = lines.len() - MAX_LOG_ENTRIES;
        LogModel { lines: lines.skip(overflow), scroll: sub_or_zero(m.scroll as int, overflow) }
    } else {
        LogModel { lines, scroll: m.scroll }
    }
}

/// A received line without its trailing CR and LF bytes.
pub open spec fn strip_line_end(raw: Seq<u8>) -> Seq<u8>
    decreases raw.len(),
{
    if raw.len() > 0 && (raw.last() == 0x0Du8 || raw.last() == 0x0Au8) {
        strip_line_end(raw.drop_last())
    } else {
        raw
    }
}

/// The log after a received line is committed: stripped of its line end,
/// and dropped when nothing is left.
pub open spec fn log_after_rx_line(m: LogModel, raw: Seq<u8>) -> LogModel {
    let s = strip_line_end(raw);
    if s.len() == 0 {
        m
    } else {
        log_after_push(m, s, Direction::Rx)
    }
}

/// Position of the first newline byte in `b`.
pub open spec fn first_newline(b: Seq<u8>) -> Option<int> {
    if exists|i: int| 0 <= i < b.len() && b[i] == 0x0Au8 {
        Some(choose|i: int| 0 <= i < b.len() && b[i] == 0x0Au8 && forall|j: int| 0 <= j < i ==> b[j] != 0x0Au8)
    } else {
        None
    }
}

/// Cuts the receive buffer into lines: every line ending in a newline is
/// committed, and what is left is committed too once it holds 1024 bytes or
/// more. Gives the log and what stays buffered.
pub open spec fn rx_split(m: LogModel, buf: Seq<u8>) -> (LogModel, Seq<u8>)
    decreases buf.len(),
{
    match first_newline(buf) {
        Some(i) => if 0 <= i < buf.len() {
            rx_split(log_after_rx_line(m, buf.take(i + 1)), buf.skip(i + 1))
        } else {
            (m, buf)
        },
        None => if buf.len() >= RX_LINE_LIMIT {
            (log_after_rx_line(m, buf), Seq::empty())
        } else {
            (m, buf)
        },
    }
}

/// Scroll offset that shows the last lines when following the log.
pub open spec fn follow_scroll(len: nat, rows: u16) -> usize {
    sub_or_zero(len as int, rows as int)
}

/// What the monitor holds, without its log's time stamps.
pub struct MonitorView {
    pub connected: bool,
    pub serial_config: SerialConfigView,
    pub log: Seq<(Seq<u8>, Direction)>,
    pub log_scroll: usize,
    pub auto_scroll: bool,
    pub display_mode: DisplayMode,
    pub rx_visible_rows: u16,
    pub rx_line_buf: Seq<u8>,
    pub rx_last_data: Option<u64>,
    pub input_buf: Seq<char>,
    pub cursor_pos: usize,
    pub send_history: Seq<Seq<char>>,
    pub history_idx: Option<usize>,
    pub newline_suffix: NewlineSuffix,
    pub hex_send_mode: bool,
    pub bytes_tx: u64,
    pub bytes_rx: u64,
    pub focus: Focus,
    pub prev_focus: Focus,
    pub show_help: bool,
    pub config_draft: SerialConfigView,
    pub config_field: ConfigField,
    pub config_port_list: Seq<Seq<char>>,
    pub config_port_idx: usize,
    pub config_baud_idx: usize,
    pub config_databits_idx: usize,
    pub config_stopbits_idx: usize,
    pub config_parity_idx: usize,
    pub config_flow_idx: usize,
}

/// The serial monitor. The connection itself (port threads and channel)
/// is kept by the caller; `connected` tells whether one is open.
pub struct SerialMonitorState {
    pub connected: bool,
    pub serial_config: SerialConfig,
    pub log: Vec<LogEntry>,
    pub log_scroll: usize,
    pub auto_scroll: bool,
    pub display_mode: DisplayMode,
    /// Rows of the receive panel, as last drawn.
    pub rx_visible_rows: u16,
    /// Received bytes not yet forming a line.
    pub rx_line_buf: Vec<u8>,
    /// When bytes last arrived, in milliseconds of a monotonic clock.
    pub rx_last_data: Option<u64>,
    pub input_buf: String,
    pub cursor_pos: usize,
    pub send_history: Vec<String>,
    pub history_idx: Option<usize>,
    pub newline_suffix: NewlineSuffix,
    pub hex_send_mode: bool,
    pub bytes_tx: u64,
    pub bytes_rx: u64,
    pub focus: Focus,
    pub prev_focus: Focus,
    pub show_help: bool,
    pub config_draft: SerialConfig,
    pub config_field: ConfigField,
    pub config_port_list: Vec<String>,
    pub config_port_idx: usize,
    pub config_baud_idx: usize,
    pub config_databits_idx: usize,
    pub config_stopbits_idx: usize,
    pub config_parity_idx: usize,
    pub config_flow_idx: usize,
}

impl View for SerialMonitorState {
    type V = MonitorView;

    open spec fn view(&self) -> MonitorView {
        MonitorView {
            connected: self.connected,
            serial_config: self.serial_config@,
            log: log_lines(self.log@),
            log_scroll: self.log_scroll,
            auto_scroll: self.auto_scroll,
            display_mode: self.display_mode,
            rx_visible_rows: self.rx_visible_rows,
            rx_line_buf: self.rx_line_buf@,
            rx_last_data: self.rx_last_data,
            input_buf: self.input_buf@,
            cursor_pos: self.cursor_pos,
            send_history: self.send_history.deep_view(),
            history_idx: self.history_idx,
            newline_suffix: self.newline_suffix,
            hex_send_mode: self.hex_send_mode,
            bytes_tx: self.bytes_tx,
            bytes_rx: self.bytes_rx,
            focus: self.focus,
            prev_focus: self.prev_focus,
            show_help: self.show_help,
            config_draft: self.config_draft@,
            config_field: self.config_field,
            config_port_list: self.config_port_list.deep_view(),
            config_port_idx: self.config_port_idx,
            config_baud_idx: self.config_baud_idx,
            config_databits_idx: self.config_databits_idx,
            config_stopbits_idx: self.config_stopbits_idx,
            config_parity_idx: self.config_parity_idx,
            config_flow_idx: self.config_flow_idx,
        }
    }
}

impl MonitorView {
    /// The log part of the state.
    pub open spec fn log_model(self) -> LogModel {
        LogModel { lines: self.log, scroll: self.log_scroll }
    }

    /// The state with the log part replaced.
    pub open spec fn with_log(self, m: LogModel) -> MonitorView {
        MonitorView { log: m.lines, log_scroll: m.scroll, ..self }
    }

    /// The state after following the log's end, when auto-scroll is on.
    pub open spec fn auto_scrolled(self) -> MonitorView {
        if self.auto_scroll {
            MonitorView { log_scroll: follow_scroll(self.log.len(), self.rx_visible_rows), ..self }
        } else {
            self
        }
    }
}

impl SerialMonitorState {
    /// What `new` returns: disconnected, default settings, an empty log
    /// following its end, ASCII display, LF line ending, focus on the send
    /// line, and the setup form on the default selections.
    pub open spec fn new_view() -> MonitorView {
        MonitorView {
            connected: false,
            serial_config: default_config_view(),
            log: Seq::empty(),
            log_scroll: 0,
            auto_scroll: true,
            display_mode: DisplayMode::Ascii,
            rx_visible_rows: 20,
            rx_line_buf: Seq::empty(),
            rx_last_data: None,
            input_buf: Seq::empty(),
            cursor_pos: 0,
            send_history: Seq::empty(),
            history_idx: None,
            newline_suffix: NewlineSuffix::LF,
            hex_send_mode: false,
            bytes_tx: 0,
            bytes_rx: 0,
            focus: Focus::Send,
            prev_focus: Focus::Send,
            show_help: false,
            config_draft: default_config_view(),
            config_field: ConfigField::PortName,
            config_port_list: Seq::empty(),
            config_port_idx: 0,
            config_baud_idx: 7,
            config_databits_idx: 3,
            config_stopbits_idx: 0,
            config_parity_idx: 0,
            config_flow_idx: 0,
        }
    }

    /// A disconnected monitor with default settings: ASCII display, LF
    /// line ending, focus on the send line, following the log.
    pub fn new() -> (s: SerialMonitorState)
        ensures
            s@ == Self::new_view(),
    {
        let s = SerialMonitorState {
            connected: false,
            serial_config: SerialConfig::new(),
            log: Vec::new(),
            log_scroll: 0,
            auto_scroll: true,
            display_mode: DisplayMode::Ascii,
            rx_visible_rows: 20,
            rx_line_buf: Vec::new(),
            rx_last_data: None,
            input_buf: String::new(),
            cursor_pos: 0,
            send_history: Vec::new(),
            history_idx: None,
            newline_suffix: NewlineSuffix::LF,
            hex_send_mode: false,
            bytes_tx: 0,
            bytes_rx: 0,
            focus: Focus::Send,
            prev_focus: Focus::Send,
            show_help: false,
            config_draft: SerialConfig::new(),
            config_field: ConfigField::PortName,
            config_port_list: Vec::new(),
            config_port_idx: 0,
            config_baud_idx: 7,
            config_databits_idx: 3,
            config_stopbits_idx: 0,
            config_parity_idx: 0,
            config_flow_idx: 0,
        };
        proof {
            assert(log_lines(s.log@) =~= Seq::<(Seq<u8>, Direction)>::empty());
            assert(s.send_history.deep_view() =~= Seq::<Seq<char>>::empty());
            assert(s.config_port_list.deep_view() =~= Seq::<Seq<char>>::empty());
        }
        s
    }

    /// Follows the end of the log when auto-scroll is on.
    pub fn ensure_auto_scroll(&mut self)
        ensures
            final(self)@ == old(self)@.auto_scrolled(),
    {
        if self.auto_scroll {
            let visible = self.rx_visible_rows as usize;
            self.log_scroll = self.log.len().saturating_sub(visible);
        }
    }

    /// Scrolls `n` lines up and stops following the log.
    pub fn scroll_up(&mut self, n: usize)
        ensures
            final(self)@ == (MonitorView {
                log_scroll: sub_or_zero(old(self).log_scroll as int, n as int),
                auto_scroll: false,
                ..old(self)@
            }),
    {
        self.log_scroll = self.log_scroll.saturating_sub(n);
        self.auto_scroll = false;
    }

    /// Scrolls `n` lines down; reaching the end follows the log again.
    pub fn scroll_down(&mut self, n: usize)
        requires
            old(self).log_scroll + n <= usize::MAX,
        ensures
            ({
                let max = follow_scroll(old(self)@.log.len(), old(self).rx_visible_rows);
                let wanted = (old(self).log_scroll + n) as usize;
                let scroll = if wanted <= max { wanted } else { max };
                final(self)@ == (MonitorView {
                    log_scroll: scroll,
                    auto_scroll: if scroll >= max { true } else { old(self).auto_scroll },
                    ..old(self)@
                })
            }),
    {
        let visible = self.rx_visible_rows as usize;
        let max_scroll = self.log.len().saturating_sub(visible);
        let wanted = self.log_scroll + n;
        self.log_scroll = if wanted <= max_scroll { wanted } else { max_scroll };
        if self.log_scroll >= max_scroll {
            self.auto_scroll = true;
        }
    }

    /// Appends a line to the log, dropping the oldest beyond 5000.
    fn push_entry(&mut self, raw: Vec<u8>, direction: Direction)
        ensures
            final(self)@ == old(self)@.with_log(log_after_push(old(self)@.log_model(), raw@, direction)),
    {
        let ghost old_lines = log_lines(self.log@);
        let entry = new_log_entry(raw, direction);
        self.log.push(entry);
        proof {
            assert(log_lines(self.log@) =~= old_lines.push((raw@, direction)));
        }
        if self.log.len() > MAX_LOG_ENTRIES {
            let overflow = self.log.len() - MAX_LOG_ENTRIES;
            let ghost before = log_lines(self.log@);
            let kept = self.log.split_off(overflow);
            self.log = kept;
            proof {
                assert(log_lines(self.log@) =~= before.skip(overflow as int));
            }
            self.log_scroll = self.log_scroll.saturating_sub(overflow);
        }
    }

    /// Commits a received line: its trailing CR/LF bytes are removed, and
    /// it is logged unless nothing is left.
    fn commit_rx_line(&mut self, raw: Vec<u8>)
        ensures
            final(self)@ == old(self)@.with_log(log_after_rx_line(old(self)@.log_model(), raw@)),
    {
        let ghost received = raw@;
        let mut raw = raw;
        while raw.len() > 0 && (raw[raw.len() - 1] == 0x0D || raw[raw.len() - 1] == 0x0A)
            invariant
                strip_line_end(raw@) == strip_line_end(received),
            decreases raw@.len(),
        {
            let ghost before = raw@;
            raw.pop();
            proof {
                assert(raw@ =~= before.drop_last());
            }
        }
        if raw.len() == 0 {
            return;
        }
        self.push_entry(raw, Direction::Rx);
    }
}

proof fn lemma_first_newline_at(b: Seq<u8>, i: int)
    requires
        0 <= i < b.len(),
        b[i] == 0x0Au8,
        forall|j: int| 0 <= j < i ==> b[j] != 0x0Au8,
    ensures
        first_newline(b) == Some(i),
{
    assert(exists|k: int| 0 <= k < b.len() && b[k] == 0x0Au8);
    let k = choose|k: int| 0 <= k < b.len() && b[k] == 0x0Au8 && forall|j: int| 0 <= j < k ==> b[j] != 0x0Au8;
    assert(0 <= i < b.len() && b[i] == 0x0Au8 && forall|j: int| 0 <= j < i ==> b[j] != 0x0Au8);
    if k < i {
    } else if k > i {
        assert(b[i] != 0x0Au8);
    }
}

proof fn lemma_first_newline_none(b: Seq<u8>)
    requires
        forall|j: int| 0 <= j < b.len() ==> b[j] != 0x0Au8,
    ensures
        first_newline(b) is None,
{
}

impl SerialMonitorState {
    /// Takes in received bytes: they are counted and time-stamped, added to
    /// the line buffer, and each complete line (and an over-long buffer)
    /// goes to the log; the log then follows its end if auto-scroll is on.
    pub fn push_rx(&mut self, data: Vec<u8>, now_ms: u64)
        requires
            old(self).bytes_rx + data@.len() <= u64::MAX,
        ensures
            ({
                let split = rx_split(old(self)@.log_model(), old(self).rx_line_buf@ + data@);
                final(self)@ == (MonitorView {
                    bytes_rx: (old(self).bytes_rx + data@.len()) as u64,
                    rx_last_data: Some(now_ms),
                    rx_line_buf: split.1,
                    ..old(self)@.with_log(split.0)
                }).auto_scrolled()
            }),
    {
        let ghost target = rx_split(old(self)@.log_model(), old(self).rx_line_buf@ + data@);
        self.bytes_rx = self.bytes_rx + data.len() as u64;
        self.rx_last_data = Some(now_ms);
        let mut d = data;
        self.rx_line_buf.append(&mut d);
        let ghost mid = self@;
        loop
            invariant_except_break
                rx_split(self@.log_model(), self.rx_line_buf@) == target,
                self@ == (MonitorView { rx_line_buf: self.rx_line_buf@, ..mid.with_log(self@.log_model()) }),
            ensures
                rx_split(self@.log_model(), self.rx_line_buf@) == target,
                first_newline(self.rx_line_buf@) is None,
                self@ == (MonitorView { rx_line_buf: self.rx_line_buf@, ..mid.with_log(self@.log_model()) }),
            decreases self.rx_line_buf@.len(),
        {
            let n = self.rx_line_buf.len();
            let mut i: usize = 0;
            while i < n && self.rx_line_buf[i] != 0x0A
                invariant
                    n == self.rx_line_buf@.len(),
                    i <= n,
                    forall|j: int| 0 <= j < i ==> self.rx_line_buf@[j] != 0x0Au8,
                decreases n - i,
            {
                i = i + 1;
            }
            if i == n {
                proof {
                    lemma_first_newline_none(self.rx_line_buf@);
                }
                break;
            }
            let ghost buf = self.rx_line_buf@;
            proof {
                lemma_first_newline_at(buf, i as int);
            }
            let rest = self.rx_line_buf.split_off(i + 1);
            let mut line = rest;
            std::mem::swap(&mut line, &mut self.rx_line_buf);
            proof {
                assert(line@ =~= buf.take(i + 1));
                assert(self.rx_line_buf@ =~= buf.skip(i + 1));
            }
            self.commit_rx_line(line);
        }
        let ghost m = self@.log_model();
        let ghost buf = self.rx_line_buf@;
        if self.rx_line_buf.len() >= RX_LINE_LIMIT {
            let raw = self.rx_line_buf.split_off(0);
            proof {
                assert(self.rx_line_buf@ =~= Seq::<u8>::empty());
                assert(raw@ == buf);
                assert(target == (log_after_rx_line(m, buf), Seq::<u8>::empty()));
            }
            self.commit_rx_line(raw);
            assert(self@ == (MonitorView { rx_line_buf: target.1, ..mid.with_log(target.0) }));
        } else {
            assert(target == (m, buf));
            assert(self@ == (MonitorView { rx_line_buf: target.1, ..mid.with_log(target.0) }));
        }
        self.ensure_auto_scroll();
    }
}

/// More than 100 ms passed since bytes last arrived.
pub open spec fn rx_idle(last: Option<u64>, now_ms: u64) -> bool {
    match last {
        Some(t) => (if now_ms >= t { now_ms - t } else { 0 }) > 100,
        None => false,
    }
}

/// The send line showing history entry `idx`, cursor at its end.
pub open spec fn showing_history(v: MonitorView, idx: usize) -> MonitorView {
    MonitorView {
        history_idx: Some(idx),
        input_buf: v.send_history[idx as int],
        cursor_pos: utf8_len(v.send_history[idx as int]) as usize,
        ..v
    }
}

/// The monitor after recalling the previous sent line.
pub open spec fn history_up_view(v: MonitorView) -> MonitorView {
    if v.send_history.len() == 0 {
        v
    } else {
        showing_history(
            v,
            match v.history_idx {
                None => (v.send_history.len() - 1) as usize,
                Some(i) => sub_or_zero(i as int, 1),
            },
        )
    }
}

/// The monitor after recalling the next sent line.
pub open spec fn history_down_view(v: MonitorView) -> MonitorView {
    match v.history_idx {
        None => v,
        Some(i) => if i + 1 >= v.send_history.len() {
            MonitorView { history_idx: None, input_buf: Seq::empty(), cursor_pos: 0, ..v }
        } else {
            showing_history(v, (i + 1) as usize)
        },
    }
}

/// The monitor after a timed-out partial line is committed.
pub open spec fn flushed_view(v: MonitorView, now_ms: u64) -> MonitorView {
    if rx_idle(v.rx_last_data, now_ms) && v.rx_line_buf.len() > 0 {
        (MonitorView {
            rx_line_buf: Seq::empty(),
            rx_last_data: None,
            ..v.with_log(log_after_rx_line(v.log_model(), v.rx_line_buf))
        }).auto_scrolled()
    } else {
        v
    }
}

/// Most entries the send history keeps.
pub const MAX_HISTORY: usize = 100;

/// The send history after `line` was sent: it is added unless it repeats
/// the last entry, and beyond 100 entries the oldest goes.
pub open spec fn history_after_send(h: Seq<Seq<char>>, line: Seq<char>) -> Seq<Seq<char>> {
    if h.len() > 0 && h.last() == line {
        h
    } else if h.len() + 1 > MAX_HISTORY {
        h.push(line).drop_first()
    } else {
        h.push(line)
    }
}

/// The monitor log never holds more than 5000 lines: a new line is always
/// kept as the last one, and when the log is full only the oldest line
/// goes.
pub proof fn law_monitor_log_bounded(m: LogModel, raw: Seq<u8>, dir: Direction)
    requires
        m.lines.len() <= MAX_LOG_ENTRIES,
    ensures
        log_after_push(m, raw, dir).lines.len() <= MAX_LOG_ENTRIES,
        log_after_push(m, raw, dir).lines.last() == (raw, dir),
        m.lines.len() < MAX_LOG_ENTRIES ==> log_after_push(m, raw, dir).lines == m.lines.push((raw, dir)),
        m.lines.len() == MAX_LOG_ENTRIES ==> log_after_push(m, raw, dir).lines == m.lines.drop_first().push(
            (raw, dir),
        ),
{
    if m.lines.len() == MAX_LOG_ENTRIES {
        assert(m.lines.push((raw, dir)).skip(1) =~= m.lines.drop_first().push((raw, dir)));
    }
}

/// No entry of the history repeats the one just before it.
pub open spec fn no_adjacent_repeats(h: Seq<Seq<char>>) -> bool {
    forall|i: int| 0 <= i < h.len() - 1 ==> #[trigger] h[i] != h[i + 1]
}

/// The send history never holds more than 100 lines, never holds the same
/// line twice in a row, and the line just sent is always its last entry;
/// the lines before it are the latest of those sent earlier, in order.
pub proof fn law_history_bounded(h: Seq<Seq<char>>, line: Seq<char>)
    requires
        h.len() <= MAX_HISTORY,
        no_adjacent_repeats(h),
    ensures
        history_after_send(h, line).len() <= MAX_HISTORY,
        history_after_send(h, line).len() > 0,
        history_after_send(h, line).last() == line,
        no_adjacent_repeats(history_after_send(h, line)),
        h.len() > 0 && h.last() == line ==> history_after_send(h, line) == h,
        !(h.len() > 0 && h.last() == line) && h.len() < MAX_HISTORY ==> history_after_send(h, line)
            == h.push(line),
        !(h.len() > 0 && h.last() == line) && h.len() == MAX_HISTORY ==> history_after_send(h, line)
            == h.drop_first().push(line),
{
    let r = history_after_send(h, line);
    if !(h.len() > 0 && h.last() == line) {
        if h.len() == MAX_HISTORY {
            assert(h.push(line).drop_first() =~= h.drop_first().push(line));
        }
        assert forall|i: int| 0 <= i < r.len() - 1 implies #[trigger] r[i] != r[i + 1] by {
            if h.len() == MAX_HISTORY {
                if i + 1 < r.len() - 1 {
                    assert(r[i] == h[i + 1] && r[i + 1] == h[i + 2]);
                } else {
                    assert(r[i] == h.last());
                }
            } else {
                if i + 1 < r.len() - 1 {
                    assert(r[i] == h[i] && r[i + 1] == h[i + 1]);
                } else {
                    assert(r[i] == h.last());
                }
            }
        }
    }
}

proof fn lemma_first_newline_found(b: Seq<u8>, k: int)
    requires
        0 <= k < b.len(),
        b[k] == 0x0Au8,
    ensures
        exists|i: int| 0 <= i < b.len() && b[i] == 0x0Au8 && forall|j: int| 0 <= j < i ==> b[j] != 0x0Au8,
    decreases k,
{
    if exists|j: int| 0 <= j < k && b[j] == 0x0Au8 {
        let j = choose|j: int| 0 <= j < k && b[j] == 0x0Au8;
        lemma_first_newline_found(b, j);
    } else {
        assert(forall|j: int| 0 <= j < k ==> b[j] != 0x0Au8);
    }
}

/// What stays buffered after received bytes were cut into lines is the
/// start of a line that is still incomplete: it holds no newline and is
/// shorter than the 1024-byte limit.
pub proof fn law_rx_remainder_is_partial_line(m: LogModel, buf: Seq<u8>)
    ensures
        forall|i: int| 0 <= i < rx_split(m, buf).1.len() ==> rx_split(m, buf).1[i] != 0x0Au8,
        rx_split(m, buf).1.len() < RX_LINE_LIMIT,
    decreases buf.len(),
{
    match first_newline(buf) {
        Some(i) => {
            let p = |i: int| 0 <= i < buf.len() && buf[i] == 0x0Au8 && forall|j: int| 0 <= j < i ==> buf[j] != 0x0Au8;
            let k = choose|k: int| 0 <= k < buf.len() && buf[k] == 0x0Au8;
            lemma_first_newline_found(buf, k);
            assert(p(i));
            law_rx_remainder_is_partial_line(log_after_rx_line(m, buf.take(i + 1)), buf.skip(i + 1));
        },
        None => {
            assert(!exists|i: int| 0 <= i < buf.len() && buf[i] == 0x0Au8);
        },
    }
}

impl SerialMonitorState {
    /// Commits a partial line once no bytes arrived for more than 100 ms.
    pub fn flush_rx_buf(&mut self, now_ms: u64)
        ensures
            final(self)@ == flushed_view(old(self)@, now_ms),
    {
        let timed_out = match self.rx_last_data {
            Some(t) => now_ms.saturating_sub(t) > 100,
            None => false,
        };
        if timed_out && self.rx_line_buf.len() > 0 {
            let ghost b = self.rx_line_buf@;
            let raw = self.rx_line_buf.split_off(0);
            proof {
                assert(self.rx_line_buf@ =~= Seq::<u8>::empty());
                assert(raw@ =~= b);
            }
            self.rx_last_data = None;
            self.commit_rx_line(raw);
            self.ensure_auto_scroll();
        }
    }

    /// Logs sent bytes.
    pub fn push_tx(&mut self, data: Vec<u8>)
        ensures
            final(self)@ == old(self)@.with_log(
                log_after_push(old(self)@.log_model(), data@, Direction::Tx),
            ).auto_scrolled(),
    {
        self.push_entry(data, Direction::Tx);
        self.ensure_auto_scroll();
    }

    /// Logs a status message (as its UTF-8 bytes).
    pub fn push_status(&mut self, msg: String)
        ensures
            final(self)@ == old(self)@.with_log(
                log_after_push(old(self)@.log_model(), encode_utf8(msg@), Direction::Status),
            ).auto_scrolled(),
    {
        let raw = msg.as_str().as_bytes_vec();
        self.push_entry(raw, Direction::Status);
        self.ensure_auto_scroll();
    }

    /// Empties the log and the partial line.
    pub fn clear_log(&mut self)
        ensures
            final(self)@ == (MonitorView {
                log: Seq::empty(),
                log_scroll: 0,
                rx_line_buf: Seq::empty(),
                rx_last_data: None,
                ..old(self)@
            }),
    {
        self.log.clear();
        self.log_scroll = 0;
        self.rx_line_buf.clear();
        self.rx_last_data = None;
        proof {
            assert(log_lines(self.log@) =~= Seq::<(Seq<u8>, Direction)>::empty());
        }
    }

    /// A history position, when browsing, names an entry.
    pub open spec fn history_ok(&self) -> bool {
        self.history_idx matches Some(i) ==> i < self.send_history@.len()
    }

    /// The send line and its cursor are usable.
    pub open spec fn input_ok(&self) -> bool {
        is_boundary(self.input_buf@, self.cursor_pos as int) && utf8_len(self.input_buf@) <= usize::MAX
    }

    /// Types `c` at the cursor of the send line and leaves history browsing.
    pub fn input_char(&mut self, c: char)
        requires
            old(self).input_ok(),
            utf8_len(old(self).input_buf@) + 4 <= usize::MAX,
        ensures
            final(self).input_ok(),
            final(self)@ == (MonitorView {
                history_idx: None,
                input_buf: after_input_char(old(self).input_buf@, old(self).cursor_pos as int, c).0,
                cursor_pos: after_input_char(old(self).input_buf@, old(self).cursor_pos as int, c).1 as usize,
                ..old(self)@
            }),
    {
        self.history_idx = None;
        text_input_char(&mut self.input_buf, &mut self.cursor_pos, c);
    }

    /// Deletes the character before the cursor of the send line.
    pub fn input_backspace(&mut self)
        requires
            old(self).input_ok(),
        ensures
            final(self).input_ok(),
            final(self)@ == (MonitorView {
                input_buf: after_backspace(old(self).input_buf@, old(self).cursor_pos as int).0,
                cursor_pos: after_backspace(old(self).input_buf@, old(self).cursor_pos as int).1 as usize,
                ..old(self)@
            }),
    {
        proof {
            crate::widgets::lemma_backspace_shrinks(self.input_buf@, self.cursor_pos as int);
        }
        text_backspace(&mut self.input_buf, &mut self.cursor_pos);
    }

    /// Deletes the character at the cursor of the send line, if any.
    pub fn input_delete(&mut self)
        requires
            old(self).input_ok(),
        ensures
            final(self).input_ok(),
            final(self)@ == (MonitorView {
                input_buf: if (old(self).cursor_pos as int) < utf8_len(old(self).input_buf@) {
                    old(self).input_buf@.remove(
                        crate::text::char_index_at(old(self).input_buf@, old(self).cursor_pos as int)->0 as int,
                    )
                } else {
                    old(self).input_buf@
                },
                ..old(self)@
            }),
    {
        crate::widgets::text_delete(&mut self.input_buf, self.cursor_pos);
    }

    /// Moves the send cursor one character left.
    pub fn input_cursor_left(&mut self)
        requires
            old(self).input_ok(),
        ensures
            final(self).input_ok(),
            final(self)@ == (MonitorView {
                cursor_pos: cursor_after_left(old(self).input_buf@, old(self).cursor_pos as int) as usize,
                ..old(self)@
            }),
    {
        text_cursor_left(self.input_buf.as_str(), &mut self.cursor_pos);
    }

    /// Moves the send cursor one character right.
    pub fn input_cursor_right(&mut self)
        requires
            old(self).input_ok(),
        ensures
            final(self).input_ok(),
            final(self)@ == (MonitorView {
                cursor_pos: cursor_after_right(old(self).input_buf@, old(self).cursor_pos as int) as usize,
                ..old(self)@
            }),
    {
        proof {
            crate::text::lemma_char_index_at_range(self.input_buf@, self.cursor_pos as int);
        }
        text_cursor_right(self.input_buf.as_str(), &mut self.cursor_pos);
    }

    /// Moves the send cursor to the start.
    pub fn input_cursor_home(&mut self)
        requires
            old(self).input_ok(),
        ensures
            final(self).input_ok(),
            final(self)@ == (MonitorView { cursor_pos: 0, ..old(self)@ }),
    {
        self.cursor_pos = 0;
        proof {
            assert(is_boundary(self.input_buf@, 0));
        }
    }

    /// Moves the send cursor to the end.
    pub fn input_cursor_end(&mut self)
        requires
            old(self).input_ok(),
        ensures
            final(self).input_ok(),
            final(self)@ == (MonitorView { cursor_pos: utf8_len(old(self).input_buf@) as usize, ..old(self)@ }),
    {
        text_cursor_end(self.input_buf.as_str(), &mut self.cursor_pos);
    }

    /// Recalls the previous sent line (the last one when not browsing yet).
    pub fn history_up(&mut self)
        requires
            old(self).history_ok(),
        ensures
            final(self)@ == history_up_view(old(self)@),
            final(self).history_ok(),
    {
        if self.send_history.len() == 0 {
            return;
        }
        let idx = match self.history_idx {
            None => self.send_history.len() - 1,
            Some(i) => i.saturating_sub(1),
        };
        self.history_idx = Some(idx);
        self.input_buf = self.send_history[idx].clone();
        self.cursor_pos = crate::text::str_len_bytes(self.input_buf.as_str());
    }

    /// Recalls the next sent line, or clears the send line after the last.
    pub fn history_down(&mut self)
        requires
            old(self).history_ok(),
        ensures
            final(self)@ == history_down_view(old(self)@),
            final(self).history_ok(),
    {
        match self.history_idx {
            None => {},
            Some(i) => {
                let len = self.send_history.len();
                assert(i < len);
                if i + 1 >= len {
                    self.history_idx = None;
                    self.input_buf = String::new();
                    self.cursor_pos = 0;
                } else {
                    let idx = i + 1;
                    self.history_idx = Some(idx);
                    self.input_buf = self.send_history[idx].clone();
                    self.cursor_pos = crate::text::str_len_bytes(self.input_buf.as_str());
                }
            },
        }
    }
}

/// Tokens found so far scanning `s` left to right, and the token being read.
pub open spec fn token_scan(s: Seq<char>) -> (Seq<Seq<char>>, Seq<char>)
    decreases s.len(),
{
    if s.len() == 0 {
        (Seq::empty(), Seq::empty())
    } else {
        let (done, cur) = token_scan(s.drop_last());
        let c = s.last();
        if is_ws(c) {
            if cur.len() > 0 {
                (done.push(cur), Seq::empty())
            } else {
                (done, Seq::empty())
            }
        } else {
            (done, cur.push(c))
        }
    }
}

/// `str::split_whitespace`: the maximal runs of non-whitespace characters.
pub open spec fn ws_tokens(s: Seq<char>) -> Seq<Seq<char>> {
    let (done, cur) = token_scan(s);
    if cur.len() > 0 {
        done.push(cur)
    } else {
        done
    }
}

/// `u8::from_str_radix(tok, 16)` as an option.
pub open spec fn hex_byte(tok: Seq<char>) -> Option<u8> {
    match parse_u64_radix(tok, 16) {
        Some(v) => if v <= 255 {
            Some(v as u8)
        } else {
            None
        },
        None => None,
    }
}

/// The bytes written as hexadecimal tokens, or the first token that is not
/// a byte.
pub open spec fn hex_tokens_value(toks: Seq<Seq<char>>) -> Result<Seq<u8>, Seq<char>>
    decreases toks.len(),
{
    if toks.len() == 0 {
        Ok(Seq::empty())
    } else {
        match hex_tokens_value(toks.drop_last()) {
            Err(t) => Err(t),
            Ok(bytes) => match hex_byte(toks.last()) {
                Some(b) => Ok(bytes.push(b)),
                None => Err(toks.last()),
            },
        }
    }
}

/// The message for a token that is not a hexadecimal byte.
pub open spec fn invalid_token_text(tok: Seq<char>) -> Seq<char> {
    "Invalid hex token: '"@ + tok + "'"@
}

/// Parses a line of whitespace-separated hexadecimal bytes such as
/// `"01 ff A0"`; the error is the message naming the first bad token.
pub fn parse_hex_input(s: &str) -> (r: Result<Vec<u8>, String>)
    ensures
        match hex_tokens_value(ws_tokens(s@)) {
            Ok(bytes) => r is Ok && r->Ok_0@ == bytes,
            Err(tok) => r is Err && r->Err_0@ == invalid_token_text(tok),
        },
{
    let n = s.unicode_len();
    let mut out: Vec<u8> = Vec::new();
    let mut i: usize = 0;
    let mut start: usize = 0;
    let ghost mut done: Seq<Seq<char>> = Seq::empty();
    proof {
        assert(s@.take(0) =~= Seq::<char>::empty());
    }
    while i < n
        invariant
            n == s@.len(),
            start <= i <= n,
            token_scan(s@.take(i as int)) == (done, s@.subrange(start as int, i as int)),
            hex_tokens_value(done) == Ok::<Seq<u8>, Seq<char>>(out@),
        decreases n - i,
    {
        let c = s.get_char(i);
        proof {
            assert(s@.take(i + 1).drop_last() =~= s@.take(i as int));
            assert(s@.take(i + 1).last() == c);
        }
        if char_is_whitespace(c) {
            if start < i {
                let tok = s.substring_char(start, i);
                let v = parse_u64_in(s, start, i, 16);
                proof {
                    assert(tok@ =~= s@.subrange(start as int, i as int));
                    assert(done.push(tok@).drop_last() =~= done);
                }
                match v {
                    Some(b) if b <= 255 => {
                        out.push(b as u8);
                        proof {
                            done = done.push(tok@);
                        }
                    },
                    _ => {
                        proof {
                            lemma_tokens_error_sticks(s@, (i + 1) as int, done.push(tok@));
                        }
                        return Err(invalid_token_message(tok));
                    },
                }
            }
            start = i + 1;
            proof {
                assert(s@.subrange(start as int, (i + 1) as int) =~= Seq::<char>::empty());
            }
        } else {
            proof {
                assert(s@.subrange(start as int, (i + 1) as int) =~= s@.subrange(start as int, i as int).push(c));
            }
        }
        i = i + 1;
    }
    proof {
        assert(s@.take(n as int) =~= s@);
    }
    if start < n {
        let tok = s.substring_char(start, n);
        let v = parse_u64_in(s, start, n, 16);
        proof {
            assert(tok@ =~= s@.subrange(start as int, n as int));
            assert(done.push(tok@).drop_last() =~= done);
        }
        match v {
            Some(b) if b <= 255 => {
                out.push(b as u8);
            },
            _ => {
                return Err(invalid_token_message(tok));
            },
        }
    }
    Ok(out)
}

/// Once a token fails, every longer prefix of the line fails on it too.
proof fn lemma_tokens_error_sticks(s: Seq<char>, i: int, done: Seq<Seq<char>>)
    requires
        0 <= i <= s.len(),
        token_scan(s.take(i)).0 == done,
        hex_tokens_value(done) is Err,
    ensures
        hex_tokens_value(ws_tokens(s)) == hex_tokens_value(done),
    decreases s.len() - i,
{
    if i < s.len() {
        assert(s.take(i + 1).drop_last() =~= s.take(i));
        let (d2, cur2) = token_scan(s.take(i + 1));
        if d2.len() > done.len() {
            assert(d2.drop_last() == done);
        }
        lemma_tokens_error_sticks(s, i + 1, d2);
    } else {
        assert(s.take(i) =~= s);
        let (d, cur) = token_scan(s);
        if cur.len() > 0 {
            assert(d.push(cur).drop_last() =~= d);
        }
    }
}

fn invalid_token_message(tok: &str) -> (m: String)
    ensures
        m@ == invalid_token_text(tok@),
{
    let mut m = String::from_str("Invalid hex token: '");
    m.append(tok);
    m.append("'");
    m
}

/// The bytes a send line stands for: the parsed hexadecimal bytes in hex
/// mode (or the message of the first bad token), its UTF-8 text otherwise.
pub open spec fn send_payload(input: Seq<char>, hex_mode: bool) -> Result<Seq<u8>, Seq<char>> {
    if hex_mode {
        hex_tokens_value(ws_tokens(input))
    } else {
        Ok(encode_utf8(input))
    }
}

impl SerialMonitorState {
    /// The bytes to send for the current line, with the line ending
    /// appended; `None` for an empty line, or when hex mode cannot parse it
    /// (then a "Hex error" status line is logged).
    pub fn prepare_current_input_bytes(&mut self) -> (r: Option<Vec<u8>>)
        ensures
            old(self)@.input_buf.len() == 0 ==> r is None && final(self)@ == old(self)@,
            old(self)@.input_buf.len() > 0 ==> match send_payload(old(self)@.input_buf, old(self).hex_send_mode) {
                Ok(bytes) => r is Some && r->0@ == bytes + old(self).newline_suffix.suffix_bytes()
                    && final(self)@ == old(self)@,
                Err(tok) => r is None && final(self)@ == old(self)@.with_log(
                    log_after_push(
                        old(self)@.log_model(),
                        encode_utf8("Hex error: "@ + invalid_token_text(tok)),
                        Direction::Status,
                    ),
                ).auto_scrolled(),
            },
    {
        if self.input_buf.as_str().unicode_len() == 0 {
            return None;
        }
        let payload = if self.hex_send_mode {
            match parse_hex_input(self.input_buf.as_str()) {
                Ok(b) => b,
                Err(e) => {
                    let mut msg = String::from_str("Hex error: ");
                    msg.append(e.as_str());
                    self.push_status(msg);
                    return None;
                },
            }
        } else {
            self.input_buf.as_str().as_bytes_vec()
        };
        let mut to_send = payload;
        let mut suffix = self.newline_suffix.bytes();
        to_send.append(&mut suffix);
        Some(to_send)
    }

    /// Records a line as sent: it joins the history (unless it repeats the
    /// last entry; at most 100 are kept), the send line is cleared, the
    /// bytes are counted and logged.
    #[verifier::rlimit(50)]
    pub fn commit_sent_input(&mut self, sent: Vec<u8>)
        requires
            old(self).bytes_tx + sent@.len() <= u64::MAX,
        ensures
            final(self)@ == (MonitorView {
                send_history: history_after_send(old(self)@.send_history, old(self)@.input_buf),
                history_idx: None,
                input_buf: Seq::empty(),
                cursor_pos: 0,
                bytes_tx: (old(self).bytes_tx + sent@.len()) as u64,
                ..old(self)@
            }).with_log(log_after_push(old(self)@.log_model(), sent@, Direction::Tx)).auto_scrolled(),
    {
        let line = self.input_buf.clone();
        let n = self.send_history.len();
        let repeat = n > 0 && self.send_history[n - 1] == line;
        if !repeat {
            let ghost h = self.send_history.deep_view();
            self.send_history.push(line);
            proof {
                assert(self.send_history.deep_view() =~= h.push(old(self).input_buf@));
            }
            if self.send_history.len() > MAX_HISTORY {
                let ghost h2 = self.send_history.deep_view();
                self.send_history.remove(0);
                proof {
                    assert(self.send_history.deep_view() =~= h2.drop_first());
                }
            }
        }
        self.history_idx = None;
        self.input_buf = String::new();
        self.cursor_pos = 0;
        self.bytes_tx = self.bytes_tx + sent.len() as u64;
        self.push_tx(sent);
    }
}

/// Position of the first `x` in `s`.
pub open spec fn position_of<T>(s: Seq<T>, x: T) -> Option<nat>
    decreases s.len(),
{
    if s.len() == 0 {
        None
    } else if s[0] == x {
        Some(0)
    } else {
        match position_of(s.drop_first(), x) {
            Some(k) => Some(k + 1),
            None => None,
        }
    }
}

proof fn lemma_position_found<T>(s: Seq<T>, x: T, i: int)
    requires
        0 <= i < s.len(),
        s[i] == x,
        forall|j: int| 0 <= j < i ==> s[j] != x,
    ensures
        position_of(s, x) == Some(i as nat),
    decreases i,
{
    if i > 0 {
        lemma_position_found(s.drop_first(), x, i - 1);
    }
}

proof fn lemma_position_absent<T>(s: Seq<T>, x: T)
    requires
        forall|j: int| 0 <= j < s.len() ==> s[j] != x,
    ensures
        position_of(s, x) is None,
    decreases s.len(),
{
    if s.len() > 0 {
        lemma_position_absent(s.drop_first(), x);
    }
}

/// `position_of`, or a default when absent.
pub open spec fn position_or(p: Option<nat>, default: nat) -> usize {
    match p {
        Some(k) => k as usize,
        None => default as usize,
    }
}

/// The serial port list shown in setup: the ports found, or a
/// "(no ports found)" entry.
pub open spec fn port_list_shown(ports: Seq<Seq<char>>) -> Seq<Seq<char>> {
    if ports.len() == 0 {
        seq!["(no ports found)"@]
    } else {
        ports
    }
}

/// The setup form opened on the current settings: the draft copies them,
/// and every selection points at the current value (or a default).
pub open spec fn setup_refreshed(v: MonitorView, ports: Seq<Seq<char>>) -> MonitorView {
    let list = port_list_shown(ports);
    MonitorView {
        config_draft: v.serial_config,
        config_port_list: list,
        config_port_idx: position_or(position_of(list, v.serial_config.port_name), 0),
        config_baud_idx: position_or(position_of(baud_presets(), v.serial_config.baud_rate), 7),
        config_databits_idx: position_or(position_of(data_bits_options(), v.serial_config.data_bits), 3),
        config_stopbits_idx: position_or(position_of(stop_bits_options(), v.serial_config.stop_bits), 0),
        config_parity_idx: position_or(position_of(parity_options(), v.serial_config.parity), 0),
        config_flow_idx: position_or(position_of(flow_control_options(), v.serial_config.flow_control), 0),
        ..v
    }
}

fn data_bits_index(d: DataBits) -> (i: usize)
    ensures
        i == position_or(position_of(data_bits_options(), d), 3),
        i < 4,
{
    reveal_with_fuel(position_of, 5);
    match d {
        DataBits::Five => 0,
        DataBits::Six => 1,
        DataBits::Seven => 2,
        DataBits::Eight => 3,
    }
}

fn stop_bits_index(d: StopBits) -> (i: usize)
    ensures
        i == position_or(position_of(stop_bits_options(), d), 0),
        i < 2,
{
    reveal_with_fuel(position_of, 3);
    match d {
        StopBits::One => 0,
        StopBits::Two => 1,
    }
}

fn parity_index(d: Parity) -> (i: usize)
    ensures
        i == position_or(position_of(parity_options(), d), 0),
        i < 3,
{
    reveal_with_fuel(position_of, 4);
    match d {
        Parity::NoParity => 0,
        Parity::Even => 1,
        Parity::Odd => 2,
    }
}

fn flow_control_index(d: FlowControl) -> (i: usize)
    ensures
        i == position_or(position_of(flow_control_options(), d), 0),
        i < 3,
{
    reveal_with_fuel(position_of, 4);
    match d {
        FlowControl::NoFlowControl => 0,
        FlowControl::Software => 1,
        FlowControl::Hardware => 2,
    }
}

/// The data-bit option at position `i` of the setup form.
pub fn data_bits_option(i: usize) -> (d: DataBits)
    requires
        i < 4,
    ensures
        d == data_bits_options()[i as int],
{
    match i {
        0 => DataBits::Five,
        1 => DataBits::Six,
        2 => DataBits::Seven,
        _ => DataBits::Eight,
    }
}

/// The stop-bit option at position `i` of the setup form.
pub fn stop_bits_option(i: usize) -> (d: StopBits)
    requires
        i < 2,
    ensures
        d == stop_bits_options()[i as int],
{
    if i == 0 {
        StopBits::One
    } else {
        StopBits::Two
    }
}

/// The parity option at position `i` of the setup form.
pub fn parity_option(i: usize) -> (d: Parity)
    requires
        i < 3,
    ensures
        d == parity_options()[i as int],
{
    match i {
        0 => Parity::NoParity,
        1 => Parity::Even,
        _ => Parity::Odd,
    }
}

/// The flow-control option at position `i` of the setup form.
pub fn flow_control_option(i: usize) -> (d: FlowControl)
    requires
        i < 3,
    ensures
        d == flow_control_options()[i as int],
{
    match i {
        0 => FlowControl::NoFlowControl,
        1 => FlowControl::Software,
        _ => FlowControl::Hardware,
    }
}

/// Option lists of the setup form, by field.
pub open spec fn option_count(v: MonitorView, f: ConfigField) -> nat {
    match f {
        ConfigField::PortName => if v.config_port_list.len() > 0 { v.config_port_list.len() } else { 1 },
        ConfigField::BaudRate => BAUD_PRESET_COUNT as nat,
        ConfigField::DataBits => 4,
        ConfigField::StopBits => 2,
        ConfigField::Parity => 3,
        ConfigField::FlowControl => 3,
    }
}

/// The selection of a setup field.
pub open spec fn option_index(v: MonitorView, f: ConfigField) -> usize {
    match f {
        ConfigField::PortName => v.config_port_idx,
        ConfigField::BaudRate => v.config_baud_idx,
        ConfigField::DataBits => v.config_databits_idx,
        ConfigField::StopBits => v.config_stopbits_idx,
        ConfigField::Parity => v.config_parity_idx,
        ConfigField::FlowControl => v.config_flow_idx,
    }
}

/// The state with the selection of field `f` set to `i`.
pub open spec fn with_option_index(v: MonitorView, f: ConfigField, i: usize) -> MonitorView {
    match f {
        ConfigField::PortName => MonitorView { config_port_idx: i, ..v },
        ConfigField::BaudRate => MonitorView { config_baud_idx: i, ..v },
        ConfigField::DataBits => MonitorView { config_databits_idx: i, ..v },
        ConfigField::StopBits => MonitorView { config_stopbits_idx: i, ..v },
        ConfigField::Parity => MonitorView { config_parity_idx: i, ..v },
        ConfigField::FlowControl => MonitorView { config_flow_idx: i, ..v },
    }
}

fn find_port(list: &Vec<String>, name: &String) -> (r: Option<usize>)
    ensures
        r == (match position_of(list.deep_view(), name@) {
            Some(k) => Some(k as usize),
            None => None::<usize>,
        }),
        r matches Some(k) ==> k < list@.len(),
{
    let ghost lv = list.deep_view();
    let mut i: usize = 0;
    while i < list.len()
        invariant
            lv == list.deep_view(),
            lv.len() == list@.len(),
            i <= list@.len(),
            forall|j: int| 0 <= j < i ==> lv[j] != name@,
        decreases list@.len() - i,
    {
        if list[i] == *name {
            proof {
                lemma_position_found(lv, name@, i as int);
            }
            return Some(i);
        }
        i = i + 1;
    }
    proof {
        lemma_position_absent(lv, name@);
    }
    None
}

/// The monitor with the setup form's selections copied into the draft,
/// which becomes the current settings.
pub open spec fn applied_setup(v: MonitorView) -> MonitorView {
    let port = if v.config_port_list.len() > 0 {
        v.config_port_list[v.config_port_idx as int]
    } else {
        v.config_draft.port_name
    };
    let cfg = SerialConfigView {
        port_name: port,
        baud_rate: baud_presets()[v.config_baud_idx as int],
        data_bits: data_bits_options()[v.config_databits_idx as int],
        stop_bits: stop_bits_options()[v.config_stopbits_idx as int],
        parity: parity_options()[v.config_parity_idx as int],
        flow_control: flow_control_options()[v.config_flow_idx as int],
    };
    MonitorView { config_draft: cfg, serial_config: cfg, ..v }
}

/// Applying the setup form takes every setting from the form's selections:
/// the selected port (when ports were listed), and the baud rate, data bits,
/// stop bits, parity and flow control at the selected positions of their
/// option lists. The result becomes both the active settings and the draft,
/// and nothing else of the monitor changes.
pub proof fn law_apply_setup_takes_selections(v: MonitorView)
    ensures
        applied_setup(v).serial_config == applied_setup(v).config_draft,
        v.config_port_list.len() > 0 ==> applied_setup(v).serial_config.port_name
            == v.config_port_list[v.config_port_idx as int],
        applied_setup(v).serial_config.baud_rate == baud_presets()[v.config_baud_idx as int],
        v.config_baud_idx == 0 ==> applied_setup(v).serial_config.baud_rate == 300,
        v.config_baud_idx == 5 ==> applied_setup(v).serial_config.baud_rate == 9600,
        v.config_baud_idx == 9 ==> applied_setup(v).serial_config.baud_rate == 115200,
        applied_setup(v).serial_config.data_bits == data_bits_options()[v.config_databits_idx as int],
        v.config_databits_idx == 0 ==> applied_setup(v).serial_config.data_bits == DataBits::Five,
        v.config_databits_idx == 1 ==> applied_setup(v).serial_config.data_bits == DataBits::Six,
        v.config_databits_idx == 2 ==> applied_setup(v).serial_config.data_bits == DataBits::Seven,
        v.config_databits_idx == 3 ==> applied_setup(v).serial_config.data_bits == DataBits::Eight,
        applied_setup(v).serial_config.stop_bits == stop_bits_options()[v.config_stopbits_idx as int],
        v.config_stopbits_idx == 0 ==> applied_setup(v).serial_config.stop_bits == StopBits::One,
        v.config_stopbits_idx == 1 ==> applied_setup(v).serial_config.stop_bits == StopBits::Two,
        applied_setup(v).serial_config.parity == parity_options()[v.config_parity_idx as int],
        v.config_parity_idx == 0 ==> applied_setup(v).serial_config.parity == Parity::NoParity,
        v.config_parity_idx == 1 ==> applied_setup(v).serial_config.parity == Parity::Even,
        v.config_parity_idx == 2 ==> applied_setup(v).serial_config.parity == Parity::Odd,
        applied_setup(v).serial_config.flow_control == flow_control_options()[v.config_flow_idx as int],
        v.config_flow_idx == 0 ==> applied_setup(v).serial_config.flow_control == FlowControl::NoFlowControl,
        v.config_flow_idx == 1 ==> applied_setup(v).serial_config.flow_control == FlowControl::Software,
        v.config_flow_idx == 2 ==> applied_setup(v).serial_config.flow_control == FlowControl::Hardware,
        (MonitorView {
            serial_config: v.serial_config,
            config_draft: v.config_draft,
            ..applied_setup(v)
        }) == v,
{
}

/// The monitor after a status line `msg` was logged.
pub open spec fn with_status(v: MonitorView, msg: Seq<char>) -> MonitorView {
    v.with_log(log_after_push(v.log_model(), encode_utf8(msg), Direction::Status)).auto_scrolled()
}

impl SerialMonitorState {
    /// Every selection of the setup form is inside its option list.
    pub open spec fn setup_ok(&self) -> bool {
        &&& self.config_port_idx < option_count(self@, ConfigField::PortName)
        &&& self.config_baud_idx < BAUD_PRESET_COUNT
        &&& self.config_databits_idx < 4
        &&& self.config_stopbits_idx < 2
        &&& self.config_parity_idx < 3
        &&& self.config_flow_idx < 3
    }

    /// Opens the setup form on the current settings with the given ports.
    #[verifier::rlimit(60)]
    pub fn refresh_port_list(&mut self, ports: Vec<String>)
        ensures
            final(self)@ == setup_refreshed(old(self)@, ports.deep_view()),
            final(self).setup_ok(),
    {
        self.config_draft = self.serial_config.copy();
        let mut list = ports;
        if list.len() == 0 {
            list.push(String::from_str("(no ports found)"));
            proof {
                assert(list.deep_view() =~= seq!["(no ports found)"@]);
            }
        }
        let found = find_port(&list, &self.serial_config.port_name);
        self.config_port_idx = match found {
            Some(k) => k,
            None => 0,
        };
        self.config_port_list = list;
        let bi = crate::serial_config::baud_preset_index(self.serial_config.baud_rate);
        proof {
            let b = self.serial_config.baud_rate;
            match bi {
                Some(k) => {
                    lemma_position_found(baud_presets(), b, k as int);
                },
                None => {
                    assert forall|j: int| 0 <= j < baud_presets().len() implies baud_presets()[j] != b by {
                        if baud_presets()[j] == b {
                            assert(baud_presets().contains(b));
                        }
                    }
                    lemma_position_absent(baud_presets(), b);
                },
            }
        }
        self.config_baud_idx = match bi {
            Some(k) => k,
            None => 7,
        };
        self.config_databits_idx = data_bits_index(self.serial_config.data_bits);
        self.config_stopbits_idx = stop_bits_index(self.serial_config.stop_bits);
        self.config_parity_idx = parity_index(self.serial_config.parity);
        self.config_flow_idx = flow_control_index(self.serial_config.flow_control);
    }
}

/// The index after `i` in a list of `n` options, wrapping.
pub open spec fn option_after(i: usize, n: nat) -> usize {
    ((i + 1) % (n as int)) as usize
}

/// The index before `i` in a list of `n` options, wrapping (`wrap_dec`).
pub open spec fn option_before(i: usize, n: nat) -> usize {
    if i == 0 {
        sub_or_zero(n as int, 1)
    } else {
        (i - 1) as usize
    }
}

fn step_index(i: usize, n: usize, forward: bool) -> (r: usize)
    requires
        n > 0,
        forward ==> i < usize::MAX,
    ensures
        forward ==> r == option_after(i, n as nat),
        !forward ==> r == option_before(i, n as nat),
        forward || i < n ==> r < n,
{
    if forward {
        (i + 1) % n
    } else if i == 0 {
        n - 1
    } else {
        i - 1
    }
}

impl SerialMonitorState {
    fn step_option(&mut self, forward: bool)
        requires
            forward ==> option_index(old(self)@, old(self).config_field) < usize::MAX,
        ensures
            old(self).setup_ok() ==> final(self).setup_ok(),
            forward ==> final(self)@ == with_option_index(
                old(self)@,
                old(self).config_field,
                option_after(option_index(old(self)@, old(self).config_field), option_count(old(self)@, old(self).config_field)),
            ),
            !forward ==> final(self)@ == with_option_index(
                old(self)@,
                old(self).config_field,
                option_before(option_index(old(self)@, old(self).config_field), option_count(old(self)@, old(self).config_field)),
            ),
    {
        match self.config_field {
            ConfigField::PortName => {
                let n = if self.config_port_list.len() > 0 { self.config_port_list.len() } else { 1 };
                self.config_port_idx = step_index(self.config_port_idx, n, forward);
            },
            ConfigField::BaudRate => {
                self.config_baud_idx = step_index(self.config_baud_idx, BAUD_PRESET_COUNT, forward);
            },
            ConfigField::DataBits => {
                self.config_databits_idx = step_index(self.config_databits_idx, 4, forward);
            },
            ConfigField::StopBits => {
                self.config_stopbits_idx = step_index(self.config_stopbits_idx, 2, forward);
            },
            ConfigField::Parity => {
                self.config_parity_idx = step_index(self.config_parity_idx, 3, forward);
            },
            ConfigField::FlowControl => {
                self.config_flow_idx = step_index(self.config_flow_idx, 3, forward);
            },
        }
    }

    /// Selects the next option of the focused setup field, wrapping.
    pub fn config_field_next_option(&mut self)
        requires
            option_index(old(self)@, old(self).config_field) < usize::MAX,
        ensures
            old(self).setup_ok() ==> final(self).setup_ok(),
            final(self)@ == with_option_index(
                old(self)@,
                old(self).config_field,
                option_after(option_index(old(self)@, old(self).config_field), option_count(old(self)@, old(self).config_field)),
            ),
    {
        self.step_option(true);
    }

    /// Selects the previous option of the focused setup field, wrapping.
    pub fn config_field_prev_option(&mut self)
        ensures
            old(self).setup_ok() ==> final(self).setup_ok(),
            final(self)@ == with_option_index(
                old(self)@,
                old(self).config_field,
                option_before(option_index(old(self)@, old(self).config_field), option_count(old(self)@, old(self).config_field)),
            ),
    {
        self.step_option(false);
    }

    /// Moves focus to the setup form, opened on the current settings with
    /// the given ports; nothing changes when setup already has focus.
    pub fn focus_setup(&mut self, ports: Vec<String>)
        ensures
            old(self).focus == Focus::Setup ==> final(self)@ == old(self)@,
            old(self).focus != Focus::Setup ==> final(self)@ == (MonitorView {
                config_field: ConfigField::PortName,
                prev_focus: old(self).focus,
                focus: Focus::Setup,
                ..setup_refreshed(old(self)@, ports.deep_view())
            }),
            old(self).focus != Focus::Setup ==> final(self).setup_ok(),
    {
        if self.focus == Focus::Setup {
            return;
        }
        self.refresh_port_list(ports);
        self.config_field = ConfigField::PortName;
        self.prev_focus = self.focus;
        self.focus = Focus::Setup;
    }

    /// Leaves setup for the send line.
    pub fn cancel_setup(&mut self)
        ensures
            final(self)@ == (MonitorView { focus: Focus::Send, ..old(self)@ }),
    {
        self.focus = Focus::Send;
    }

    /// Copies the setup selections into the draft and makes it the current
    /// settings (the caller then reconnects).
    pub fn apply_setup(&mut self)
        requires
            old(self).setup_ok(),
        ensures
            final(self).setup_ok(),
            final(self)@ == applied_setup(old(self)@),
    {
        if self.config_port_list.len() > 0 {
            self.config_draft.port_name = self.config_port_list[self.config_port_idx].clone();
        }
        self.config_draft.baud_rate = baud_preset(self.config_baud_idx);
        self.config_draft.data_bits = data_bits_option(self.config_databits_idx);
        self.config_draft.stop_bits = stop_bits_option(self.config_stopbits_idx);
        self.config_draft.parity = parity_option(self.config_parity_idx);
        self.config_draft.flow_control = flow_control_option(self.config_flow_idx);
        self.serial_config = self.config_draft.copy();
    }

    /// Records that the port was opened and logs where.
    pub fn mark_connected(&mut self)
        ensures
            final(self)@ == (MonitorView { connected: true, ..old(self)@ }).with_log(
                log_after_push(
                    old(self)@.log_model(),
                    encode_utf8(
                        "Connected: "@ + old(self)@.serial_config.port_name + " @ "@
                            + crate::numfmt::decimal_text(old(self).serial_config.baud_rate as nat)
                            + " baud"@,
                    ),
                    Direction::Status,
                ),
            ).auto_scrolled(),
    {
        self.connected = true;
        let mut msg = String::from_str("Connected: ");
        msg.append(self.serial_config.port_name.as_str());
        msg.append(" @ ");
        crate::numfmt::push_decimal(&mut msg, self.serial_config.baud_rate as u64);
        msg.append(" baud");
        self.push_status(msg);
    }

    /// Marks the monitor disconnected, logging "Disconnected" when asked;
    /// tells whether it was connected (the caller then closes the port).
    pub fn disconnect_with_status(&mut self, show_status: bool) -> (was: bool)
        ensures
            was == old(self).connected,
            !was ==> final(self)@ == old(self)@,
            was && !show_status ==> final(self)@ == (MonitorView { connected: false, ..old(self)@ }),
            was && show_status ==> final(self)@ == (MonitorView { connected: false, ..old(self)@ }).with_log(
                log_after_push(old(self)@.log_model(), encode_utf8("Disconnected"@), Direction::Status),
            ).auto_scrolled(),
    {
        if !self.connected {
            return false;
        }
        self.connected = false;
        if show_status {
            self.push_status(String::from_str("Disconnected"));
        }
        true
    }

    /// `disconnect_with_status(true)`.
    pub fn disconnect(&mut self) -> (was: bool)
        ensures
            was == old(self).connected,
            !was ==> final(self)@ == old(self)@,
            was ==> final(self)@ == (MonitorView { connected: false, ..old(self)@ }).with_log(
                log_after_push(old(self)@.log_model(), encode_utf8("Disconnected"@), Direction::Status),
            ).auto_scrolled(),
    {
        self.disconnect_with_status(true)
    }
}

/// Lines joined with `\n` between them (`[String]::join("\n")`).
pub open spec fn joined_lines(lines: Seq<Seq<char>>) -> Seq<char>
    decreases lines.len(),
{
    if lines.len() == 0 {
        Seq::empty()
    } else if lines.len() == 1 {
        lines[0]
    } else {
        joined_lines(lines.drop_last()) + "\n"@ + lines.last()
    }
}

/// An exported log line: `[<time> RX] text`, with `TX` or `STATUS` for the
/// other origins.
pub open spec fn export_line(e: LogEntryView) -> Seq<char> {
    let tag = match e.direction {
        Direction::Status => " STATUS] "@,
        Direction::Rx => " RX] "@,
        Direction::Tx => " TX] "@,
    };
    "["@ + e.stamp + tag + lossy_text(e.raw, CharStyle::Export)
}

/// Formats one log line for export.
pub fn format_log_entry_for_export(entry: &LogEntry) -> (s: String)
    ensures
        s@ == export_line(entry@),
{
    let mut s = String::from_str("[");
    s.append(entry.stamp.as_str());
    match entry.direction {
        Direction::Status => s.append(" STATUS] "),
        Direction::Rx => s.append(" RX] "),
        Direction::Tx => s.append(" TX] "),
    }
    let text = decode_export_text(entry.raw.as_slice());
    s.append(text.as_str());
    s
}

/// An exported line names the origin of its entry: `[`, the time stamp,
/// then ` RX] ` for a received line, ` TX] ` for a sent one and ` STATUS] `
/// for a status line, then the text. Entries that differ only in origin
/// never export to the same line.
pub proof fn law_export_line_names_direction(e: LogEntryView, other: LogEntryView)
    ensures
        e.direction == Direction::Rx ==> export_line(e) == seq!['['] + e.stamp + seq![' ', 'R', 'X', ']', ' ']
            + lossy_text(e.raw, CharStyle::Export),
        e.direction == Direction::Tx ==> export_line(e) == seq!['['] + e.stamp + seq![' ', 'T', 'X', ']', ' ']
            + lossy_text(e.raw, CharStyle::Export),
        e.direction == Direction::Status ==> export_line(e) == seq!['['] + e.stamp + seq![
            ' ',
            'S',
            'T',
            'A',
            'T',
            'U',
            'S',
            ']',
            ' ',
        ] + lossy_text(e.raw, CharStyle::Export),
        other.stamp == e.stamp && other.raw == e.raw && other.direction != e.direction ==> export_line(other)
            != export_line(e),
{
    reveal_strlit("[");
    reveal_strlit(" RX] ");
    reveal_strlit(" TX] ");
    reveal_strlit(" STATUS] ");
    assert("["@ =~= seq!['[']);
    assert(" RX] "@ =~= seq![' ', 'R', 'X', ']', ' ']);
    assert(" TX] "@ =~= seq![' ', 'T', 'X', ']', ' ']);
    assert(" STATUS] "@ =~= seq![' ', 'S', 'T', 'A', 'T', 'U', 'S', ']', ' ']);
    if other.stamp == e.stamp && other.raw == e.raw && other.direction != e.direction {
        let k: int = e.stamp.len() as int + 2;
        let tag_e = match e.direction {
            Direction::Status => " STATUS] "@,
            Direction::Rx => " RX] "@,
            Direction::Tx => " TX] "@,
        };
        let tag_o = match other.direction {
            Direction::Status => " STATUS] "@,
            Direction::Rx => " RX] "@,
            Direction::Tx => " TX] "@,
        };
        let head = "["@ + e.stamp;
        assert(export_line(e) == head + tag_e + lossy_text(e.raw, CharStyle::Export));
        assert(export_line(other) == head + tag_o + lossy_text(e.raw, CharStyle::Export));
        assert((head + tag_e + lossy_text(e.raw, CharStyle::Export))[k] == tag_e[1]);
        assert((head + tag_o + lossy_text(e.raw, CharStyle::Export))[k] == tag_o[1]);
        assert(tag_e[1] != tag_o[1]);
    }
}

impl SerialMonitorState {
    /// The whole log as text, one exported line per entry.
    pub fn export_log_text(&self) -> (s: String)
        ensures
            s@ == joined_lines(self.log@.map_values(|e: LogEntry| export_line(e@))),
    {
        let ghost lines = self.log@.map_values(|e: LogEntry| export_line(e@));
        let mut out = String::new();
        let mut i: usize = 0;
        proof {
            assert(lines.take(0) =~= Seq::<Seq<char>>::empty());
        }
        while i < self.log.len()
            invariant
                lines == self.log@.map_values(|e: LogEntry| export_line(e@)),
                i <= self.log@.len(),
                out@ == joined_lines(lines.take(i as int)),
            decreases self.log@.len() - i,
        {
            let line = format_log_entry_for_export(&self.log[i]);
            if i > 0 {
                out.append("\n");
            }
            out.append(line.as_str());
            proof {
                assert(lines.take(i + 1).drop_last() =~= lines.take(i as int));
                if i == 0 {
                    assert(lines.take(1) =~= seq![lines[0]]);
                }
            }
            i = i + 1;
        }
        proof {
            assert(lines.take(i as int) =~= lines);
        }
        out
    }
}

impl SerialMonitorState {
    /// Starts sending the current line: nothing for an empty line; a "Not
    /// connected" status when no port is open; else the bytes to write
    /// (see `prepare_current_input_bytes`).
    pub fn begin_send(&mut self, link_open: bool) -> (r: Option<Vec<u8>>)
        ensures
            old(self)@.input_buf.len() == 0 ==> r is None && final(self)@ == old(self)@,
            old(self)@.input_buf.len() > 0 && !link_open ==> r is None && final(self)@ == old(self)@.with_log(
                log_after_push(old(self)@.log_model(), encode_utf8("Not connected"@), Direction::Status),
            ).auto_scrolled(),
            old(self)@.input_buf.len() > 0 && link_open ==> match send_payload(old(self)@.input_buf, old(self).hex_send_mode) {
                Ok(bytes) => r is Some && r->0@ == bytes + old(self).newline_suffix.suffix_bytes()
                    && final(self)@ == old(self)@,
                Err(tok) => r is None && final(self)@ == old(self)@.with_log(
                    log_after_push(
                        old(self)@.log_model(),
                        encode_utf8("Hex error: "@ + invalid_token_text(tok)),
                        Direction::Status,
                    ),
                ).auto_scrolled(),
            },
    {
        if self.input_buf.as_str().unicode_len() == 0 {
            return None;
        }
        if !link_open {
            self.push_status(String::from_str("Not connected"));
            return None;
        }
        self.prepare_current_input_bytes()
    }

    /// Records that writing the line to the port failed.
    pub fn send_failed(&mut self)
        ensures
            final(self)@ == old(self)@.with_log(
                log_after_push(old(self)@.log_model(), encode_utf8("Send failed: disconnected"@), Direction::Status),
            ).auto_scrolled(),
    {
        self.push_status(String::from_str("Send failed: disconnected"));
    }

    /// After applying setup: focus returns to the send line.
    pub fn setup_applied(&mut self)
        ensures
            final(self)@ == (MonitorView { focus: Focus::Send, ..old(self)@ }),
    {
        self.focus = Focus::Send;
    }

    /// Applying setup could not open the port: focus returns to the send
    /// line and the reason is logged.
    pub fn connect_failed(&mut self, reason: String)
        ensures
            final(self)@ == (MonitorView { focus: Focus::Send, ..old(self)@ }).with_log(
                log_after_push(old(self)@.log_model(), encode_utf8("Connect failed: "@ + reason@), Direction::Status),
            ).auto_scrolled(),
    {
        self.focus = Focus::Send;
        let mut msg = String::from_str("Connect failed: ");
        msg.append(reason.as_str());
        self.push_status(msg);
    }

    /// The port reported an error: the monitor is marked disconnected and,
    /// if it was connected, the error is logged; tells whether it was
    /// connected (the caller then closes the port).
    pub fn link_failed(&mut self, reason: String) -> (was: bool)
        ensures
            was == old(self).connected,
            !was ==> final(self)@ == old(self)@,
            was ==> final(self)@ == with_status(
                MonitorView { connected: false, ..old(self)@ },
                "Serial error: "@ + reason@,
            ),
    {
        let was = self.disconnect_with_status(false);
        if was {
            let mut msg = String::from_str("Serial error: ");
            msg.append(reason.as_str());
            self.push_status(msg);
        }
        was
    }

    /// Applies the setup form and disconnects from the current port, if
    /// any; tells whether a connection was open (the caller then closes it
    /// and opens the new settings).
    pub fn begin_apply_setup(&mut self) -> (close_link: bool)
        requires
            old(self).setup_ok(),
        ensures
            final(self).setup_ok(),
            close_link == old(self).connected,
            final(self)@ == crate::monitor_keys::disconnected(applied_setup(old(self)@)),
    {
        self.apply_setup();
        self.disconnect()
    }
}

/// Each byte as two uppercase hex digits followed by a space.
pub open spec fn hex_cells(bs: Seq<u8>) -> Seq<char>
    decreases bs.len(),
{
    if bs.len() == 0 {
        Seq::empty()
    } else {
        hex_cells(bs.drop_last()) + hex_text(bs.last() as nat, 2) + " "@
    }
}

/// Each byte as two uppercase hex digits, one space between them.
pub open spec fn hex_spaced(bs: Seq<u8>) -> Seq<char>
    decreases bs.len(),
{
    if bs.len() == 0 {
        Seq::empty()
    } else if bs.len() == 1 {
        hex_text(bs[0] as nat, 2)
    } else {
        hex_spaced(bs.drop_last()) + " "@ + hex_text(bs.last() as nat, 2)
    }
}

/// A byte as its ASCII character when it is printable (space included),
/// else `.`.
pub open spec fn printable_ascii(b: u8) -> char {
    if 0x20 <= b <= 0x7E {
        (b as u32) as char
    } else {
        '.'
    }
}

/// How a received or sent line is shown in a display mode: decoded text,
/// hex cells, or hex next to printable ASCII.
pub open spec fn display_text(raw: Seq<u8>, mode: DisplayMode) -> Seq<char> {
    match mode {
        DisplayMode::Ascii => lossy_text(raw, CharStyle::Display),
        DisplayMode::Hex => hex_cells(raw),
        DisplayMode::Both => hex_spaced(raw) + "  "@ + Seq::new(
            raw.len(),
            |i: int| printable_ascii(raw[i]),
        ),
    }
}

/// Shows a received or sent line in the given display mode.
pub fn format_line_content(raw: &[u8], mode: DisplayMode) -> (s: String)
    ensures
        s@ == display_text(raw@, mode),
{
    match mode {
        DisplayMode::Ascii => decode_utf8_display(raw),
        DisplayMode::Hex => {
            let mut out = String::new();
            let mut i: usize = 0;
            while i < raw.len()
                invariant
                    i <= raw@.len(),
                    out@ == hex_cells(raw@.take(i as int)),
                decreases raw@.len() - i,
            {
                push_hex(&mut out, raw[i] as u64, 2);
                out.append(" ");
                proof {
                    assert(raw@.take(i + 1).drop_last() =~= raw@.take(i as int));
                }
                i = i + 1;
            }
            proof {
                assert(raw@.take(i as int) =~= raw@);
            }
            out
        },
        DisplayMode::Both => {
            let mut out = String::new();
            let mut i: usize = 0;
            while i < raw.len()
                invariant
                    i <= raw@.len(),
                    out@ == hex_spaced(raw@.take(i as int)),
                decreases raw@.len() - i,
            {
                if i > 0 {
                    out.append(" ");
                }
                push_hex(&mut out, raw[i] as u64, 2);
                proof {
                    assert(raw@.take(i + 1).drop_last() =~= raw@.take(i as int));
                    if i == 0 {
                        assert(raw@.take(1)[0] == raw@[0]);
                    }
                }
                i = i + 1;
            }
            proof {
                assert(raw@.take(i as int) =~= raw@);
            }
            out.append("  ");
            let ghost head = out@;
            let mut j: usize = 0;
            while j < raw.len()
                invariant
                    j <= raw@.len(),
                    out@ == head + Seq::new(j as nat, |k: int| printable_ascii(raw@[k])),
                decreases raw@.len() - j,
            {
                let b = raw[j];
                let c = if 0x20 <= b && b <= 0x7E {
                    b as char
                } else {
                    '.'
                };
                crate::text::string_push(&mut out, c);
                proof {
                    assert(Seq::new((j + 1) as nat, |k: int| printable_ascii(raw@[k])) =~= Seq::new(
                        j as nat,
                        |k: int| printable_ascii(raw@[k]),
                    ).push(printable_ascii(raw@[j as int])));
                }
                j = j + 1;
            }
            out
        },
    }
}

/// The hex text of each byte.
pub open spec fn hex_tokens(bs: Seq<u8>) -> Seq<Seq<char>> {
    Seq::new(bs.len(), |i: int| hex_text(bs[i] as nat, 2))
}

proof fn lemma_byte_hex_text(b: u8)
    ensures
        hex_text(b as nat, 2) == seq![
            crate::numfmt::digit_char(b as nat / 16),
            crate::numfmt::digit_char(b as nat % 16),
        ],
        crate::numfmt::digit_value(crate::numfmt::digit_char(b as nat / 16), 16) == Some(b as nat / 16),
        crate::numfmt::digit_value(crate::numfmt::digit_char(b as nat % 16), 16) == Some(b as nat % 16),
        !is_ws(crate::numfmt::digit_char(b as nat / 16)),
        !is_ws(crate::numfmt::digit_char(b as nat % 16)),
{
    reveal_with_fuel(crate::numfmt::radix_digits, 2);
    let n = b as nat;
    if n < 16 {
        assert(n % 16 == n);
        assert(n / 16 == 0);
        assert(Seq::new(1, |i: int| '0') + seq![crate::numfmt::digit_char(n % 16)] =~= seq![
            crate::numfmt::digit_char(0),
            crate::numfmt::digit_char(n % 16),
        ]);
    } else {
        assert(n / 16 < 16);
        assert((n / 16) % 16 == n / 16);
    }
}

proof fn lemma_scan_word(x: Seq<char>, t: Seq<char>)
    requires
        forall|i: int| 0 <= i < t.len() ==> !is_ws(#[trigger] t[i]),
    ensures
        token_scan(x + t) == (token_scan(x).0, token_scan(x).1 + t),
    decreases t.len(),
{
    if t.len() == 0 {
        assert(x + t =~= x);
        assert(token_scan(x).1 + t =~= token_scan(x).1);
    } else {
        lemma_scan_word(x, t.drop_last());
        assert((x + t).drop_last() =~= x + t.drop_last());
        assert((x + t).last() == t.last());
        assert(!is_ws(t[t.len() - 1]));
        assert((token_scan(x).1 + t.drop_last()).push(t.last()) =~= token_scan(x).1 + t);
    }
}

proof fn lemma_scan_hex_cells(bs: Seq<u8>)
    ensures
        token_scan(hex_cells(bs)) == (hex_tokens(bs), Seq::<char>::empty()),
    decreases bs.len(),
{
    if bs.len() == 0 {
        assert(hex_tokens(bs) =~= Seq::<Seq<char>>::empty());
    } else {
        let pre = hex_cells(bs.drop_last());
        let t = hex_text(bs.last() as nat, 2);
        lemma_scan_hex_cells(bs.drop_last());
        lemma_byte_hex_text(bs.last());
        assert(forall|i: int| 0 <= i < t.len() ==> !is_ws(#[trigger] t[i]));
        lemma_scan_word(pre, t);
        assert(Seq::<char>::empty() + t =~= t);
        reveal_strlit(" ");
        assert((pre + t + " "@).drop_last() =~= pre + t);
        assert((pre + t + " "@).last() == ' ');
        assert(hex_tokens(bs.drop_last()).push(t) =~= hex_tokens(bs));
    }
}

proof fn lemma_hex_tokens_value(bs: Seq<u8>)
    ensures
        hex_tokens_value(hex_tokens(bs)) == Ok::<Seq<u8>, Seq<char>>(bs),
    decreases bs.len(),
{
    if bs.len() > 0 {
        lemma_hex_tokens_value(bs.drop_last());
        assert(hex_tokens(bs).drop_last() =~= hex_tokens(bs.drop_last()));
        let b = bs.last();
        lemma_byte_hex_text(b);
        let t = hex_text(b as nat, 2);
        reveal_with_fuel(crate::numfmt::digits_value, 3);
        assert(t.drop_last().drop_last() =~= Seq::<char>::empty());
        assert(t.drop_last() =~= seq![crate::numfmt::digit_char(b as nat / 16)]);
        assert(crate::numfmt::digits_value(t, 16) == Some((b as nat / 16) * 16 + b as nat % 16));
        assert((b as nat / 16) * 16 + b as nat % 16 == b as nat);
        assert(t[0] != '+');
        assert(t != seq!['+']);
        assert(crate::numfmt::parse_u64_radix(t, 16) == Some(b as u64));
        assert(hex_byte(t) == Some(b));
        assert(hex_tokens(bs).last() == t);
        assert(bs.drop_last().push(b) =~= bs);
    } else {
        assert(bs =~= Seq::<u8>::empty());
    }
}

/// Bytes shown in HEX display mode, typed back into the send line in HEX
/// send mode, are sent as the same bytes.
pub proof fn law_hex_display_sends_back(bs: Seq<u8>)
    ensures
        send_payload(display_text(bs, DisplayMode::Hex), true) == Ok::<Seq<u8>, Seq<char>>(bs),
{
    lemma_scan_hex_cells(bs);
    lemma_hex_tokens_value(bs);
}

/// The setup form's selections in one line: port, baud rate, the data
/// bits, parity and stop bits as in `8N1`, and the flow control.
pub open spec fn setup_summary_text(v: MonitorView, port: Seq<char>) -> Seq<char> {
    port + " @ "@ + crate::numfmt::decimal_text(baud_presets()[v.config_baud_idx as int] as nat) + " "@
        + data_bits_text(data_bits_options()[v.config_databits_idx as int]) + parity_letter(
        parity_options()[v.config_parity_idx as int],
    ) + stop_bits_text(stop_bits_options()[v.config_stopbits_idx as int]) + "  Flow: "@
        + flow_control_text(flow_control_options()[v.config_flow_idx as int])
}

impl SerialMonitorState {
    /// The setup form's selections summed up for `port`.
    pub fn setup_summary(&self, port: &str) -> (s: String)
        requires
            self.setup_ok(),
        ensures
            s@ == setup_summary_text(self@, port@),
    {
        let mut s = String::from_str(port);
        s.append(" @ ");
        crate::numfmt::push_decimal(&mut s, baud_preset(self.config_baud_idx) as u64);
        s.append(" ");
        s.append(data_bits_label(data_bits_option(self.config_databits_idx)));
        s.append(parity_short(parity_option(self.config_parity_idx)));
        s.append(stop_bits_label(stop_bits_option(self.config_stopbits_idx)));
        s.append("  Flow: ");
        s.append(flow_control_label(flow_control_option(self.config_flow_idx)));
        s
    }
}

} // verus!

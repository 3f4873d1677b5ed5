//! Key handling of the serial monitor: the help overlay, the function-key
//! shortcuts, moving focus, and the keys of the setup form, the send line
//! and the receive log. What needs the port, the clipboard or the disk is
//! handed back as a command.

use vstd::prelude::*;
use vstd::utf8::encode_utf8;
use crate::keys::{KeyCode, KeyModifiers};
use crate::monitor::{
    ConfigField, Direction, DisplayMode, Focus, MonitorView, NewlineSuffix, SerialMonitorState,
    follow_scroll, history_down_view, history_up_view, log_after_push, option_after,
    option_before, option_count, option_index, sub_or_zero, with_option_index,
};
use crate::text::{char_index_at, utf8_len};
use crate::widgets::{after_backspace, after_input_char, cursor_after_left, cursor_after_right};

verus! {

/// What the caller does after a monitor key was handled.
#[derive(Debug, Clone, Copy, PartialEq, Eq, Structural)]
pub enum MonitorCommand {
    Nothing,
    /// List the serial ports and open setup on them (`focus_setup`).
    OpenSetup,
    /// List the serial ports again (`refresh_port_list`).
    RefreshPorts,
    /// Apply the setup and reconnect.
    ApplySetup,
    /// Close the serial connection that was just marked disconnected.
    CloseLink,
    /// Send the current line.
    SendLine,
    /// Copy the exported log to the clipboard.
    CopyLog,
    /// Save the exported log to a file.
    SaveLog,
}

/// The next display mode.
pub open spec fn next_display(m: DisplayMode) -> DisplayMode {
    match m {
        DisplayMode::Ascii => DisplayMode::Hex,
        DisplayMode::Hex => DisplayMode::Both,
        DisplayMode::Both => DisplayMode::Ascii,
    }
}

/// The next line ending.
pub open spec fn next_suffix(s: NewlineSuffix) -> NewlineSuffix {
    match s {
        NewlineSuffix::NoSuffix => NewlineSuffix::CR,
        NewlineSuffix::CR => NewlineSuffix::LF,
        NewlineSuffix::LF => NewlineSuffix::CRLF,
        NewlineSuffix::CRLF => NewlineSuffix::NoSuffix,
    }
}

/// The monitor after scrolling `n` lines up.
pub open spec fn scrolled_up(v: MonitorView, n: usize) -> MonitorView {
    MonitorView { log_scroll: sub_or_zero(v.log_scroll as int, n as int), auto_scroll: false, ..v }
}

/// The monitor after scrolling `n` lines down.
pub open spec fn scrolled_down(v: MonitorView, n: usize) -> MonitorView {
    let max = follow_scroll(v.log.len(), v.rx_visible_rows);
    let wanted = (v.log_scroll + n) as usize;
    let scroll = if wanted <= max {
        wanted
    } else {
        max
    };
    MonitorView {
        log_scroll: scroll,
        auto_scroll: if scroll >= max {
            true
        } else {
            v.auto_scroll
        },
        ..v
    }
}

/// The monitor after a disconnect with a status line.
pub open spec fn disconnected(v: MonitorView) -> MonitorView {
    if !v.connected {
        v
    } else {
        (MonitorView { connected: false, ..v }).with_log(
            log_after_push(v.log_model(), encode_utf8("Disconnected"@), Direction::Status),
        ).auto_scrolled()
    }
}

/// The close command owed after a disconnect.
pub open spec fn close_command(v: MonitorView) -> MonitorCommand {
    if v.connected {
        MonitorCommand::CloseLink
    } else {
        MonitorCommand::Nothing
    }
}

/// A key in the setup form.
pub open spec fn setup_key_step(v: MonitorView, key: KeyCode, mods: KeyModifiers) -> (
    MonitorView,
    MonitorCommand,
) {
    match key {
        KeyCode::Esc => (MonitorView { focus: Focus::Send, ..v }, MonitorCommand::Nothing),
        KeyCode::Enter => (v, MonitorCommand::ApplySetup),
        KeyCode::Char('d') if mods.bits == 2 => (
            MonitorView { focus: Focus::Send, ..disconnected(v) },
            close_command(v),
        ),
        KeyCode::Char('r') if mods.bits == 0 && v.config_field == ConfigField::PortName => (
            v,
            MonitorCommand::RefreshPorts,
        ),
        KeyCode::Up => (
            MonitorView { config_field: v.config_field.predecessor(), ..v },
            MonitorCommand::Nothing,
        ),
        KeyCode::Down => (
            MonitorView { config_field: v.config_field.successor(), ..v },
            MonitorCommand::Nothing,
        ),
        KeyCode::Left => (
            with_option_index(
                v,
                v.config_field,
                option_before(option_index(v, v.config_field), option_count(v, v.config_field)),
            ),
            MonitorCommand::Nothing,
        ),
        KeyCode::Right => (
            with_option_index(
                v,
                v.config_field,
                option_after(option_index(v, v.config_field), option_count(v, v.config_field)),
            ),
            MonitorCommand::Nothing,
        ),
        _ => (v, MonitorCommand::Nothing),
    }
}

/// The send line after deleting the character at the cursor.
pub open spec fn deleted_at_cursor(v: MonitorView) -> MonitorView {
    MonitorView {
        input_buf: if (v.cursor_pos as int) < utf8_len(v.input_buf) {
            v.input_buf.remove(char_index_at(v.input_buf, v.cursor_pos as int)->0 as int)
        } else {
            v.input_buf
        },
        ..v
    }
}

/// A key on the send line.
pub open spec fn send_key_step(v: MonitorView, key: KeyCode, mods: KeyModifiers) -> (
    MonitorView,
    MonitorCommand,
) {
    match key {
        KeyCode::Enter => (v, MonitorCommand::SendLine),
        KeyCode::Char('d') if mods.bits == 2 => (disconnected(v), close_command(v)),
        KeyCode::Up => (history_up_view(v), MonitorCommand::Nothing),
        KeyCode::Down => (history_down_view(v), MonitorCommand::Nothing),
        KeyCode::Left => (
            MonitorView {
                cursor_pos: cursor_after_left(v.input_buf, v.cursor_pos as int) as usize,
                ..v
            },
            MonitorCommand::Nothing,
        ),
        KeyCode::Right => (
            MonitorView {
                cursor_pos: cursor_after_right(v.input_buf, v.cursor_pos as int) as usize,
                ..v
            },
            MonitorCommand::Nothing,
        ),
        KeyCode::Home => (MonitorView { cursor_pos: 0, ..v }, MonitorCommand::Nothing),
        KeyCode::End => (
            MonitorView { cursor_pos: utf8_len(v.input_buf) as usize, ..v },
            MonitorCommand::Nothing,
        ),
        KeyCode::Backspace => (
            MonitorView {
                input_buf: after_backspace(v.input_buf, v.cursor_pos as int).0,
                cursor_pos: after_backspace(v.input_buf, v.cursor_pos as int).1 as usize,
                ..v
            },
            MonitorCommand::Nothing,
        ),
        KeyCode::Delete => (deleted_at_cursor(v), MonitorCommand::Nothing),
        KeyCode::Char('h') if mods.bits == 2 => (
            MonitorView { hex_send_mode: !v.hex_send_mode, ..v },
            MonitorCommand::Nothing,
        ),
        KeyCode::Char('n') if mods.bits == 2 => (
            MonitorView { newline_suffix: next_suffix(v.newline_suffix), ..v },
            MonitorCommand::Nothing,
        ),
        KeyCode::Char(c) => if mods.is_plain_typing() {
            (
                MonitorView {
                    history_idx: None,
                    input_buf: after_input_char(v.input_buf, v.cursor_pos as int, c).0,
                    cursor_pos: after_input_char(v.input_buf, v.cursor_pos as int, c).1 as usize,
                    ..v
                },
                MonitorCommand::Nothing,
            )
        } else {
            (v, MonitorCommand::Nothing)
        },
        _ => (v, MonitorCommand::Nothing),
    }
}

/// A key in the receive log.
pub open spec fn receive_key_step(v: MonitorView, key: KeyCode) -> MonitorView {
    let page = sub_or_zero(v.rx_visible_rows as int, 1);
    match key {
        KeyCode::Up => scrolled_up(v, 1),
        KeyCode::Down => scrolled_down(v, 1),
        KeyCode::PageUp => scrolled_up(v, page),
        KeyCode::PageDown => scrolled_down(v, page),
        KeyCode::Home => MonitorView { log_scroll: 0, auto_scroll: false, ..v },
        KeyCode::End => (MonitorView { auto_scroll: true, ..v }).auto_scrolled(),
        _ => v,
    }
}

/// A key on the monitor screen: any key closes the help overlay; F1 opens
/// it, F2 opens setup, F3 clears the log, F4 changes the display, F5
/// toggles following the log, F6/F7 export it; Tab and Shift-Tab move focus
/// round setup, receive and send; other keys go to the focused panel.
pub open spec fn monitor_key_step(v: MonitorView, key: KeyCode, mods: KeyModifiers) -> (
    MonitorView,
    MonitorCommand,
) {
    if v.show_help {
        (MonitorView { show_help: false, focus: v.prev_focus, ..v }, MonitorCommand::Nothing)
    } else {
        match key {
            KeyCode::F(1) => (
                MonitorView { prev_focus: v.focus, show_help: true, focus: Focus::HelpOverlay, ..v },
                MonitorCommand::Nothing,
            ),
            KeyCode::F(2) => (v, MonitorCommand::OpenSetup),
            KeyCode::F(3) => (
                MonitorView {
                    log: Seq::empty(),
                    log_scroll: 0,
                    rx_line_buf: Seq::empty(),
                    rx_last_data: None,
                    ..v
                },
                MonitorCommand::Nothing,
            ),
            KeyCode::F(4) => (
                MonitorView { display_mode: next_display(v.display_mode), ..v },
                MonitorCommand::Nothing,
            ),
            KeyCode::F(5) => (
                (MonitorView { auto_scroll: !v.auto_scroll, ..v }).auto_scrolled(),
                MonitorCommand::Nothing,
            ),
            KeyCode::F(6) => (v, MonitorCommand::CopyLog),
            KeyCode::F(7) => (v, MonitorCommand::SaveLog),
            KeyCode::Tab if mods.bits == 0 => match v.focus {
                Focus::Setup => (MonitorView { focus: Focus::Receive, ..v }, MonitorCommand::Nothing),
                Focus::Receive => (MonitorView { focus: Focus::Send, ..v }, MonitorCommand::Nothing),
                Focus::Send => (v, MonitorCommand::OpenSetup),
                Focus::HelpOverlay => (MonitorView { focus: Focus::Send, ..v }, MonitorCommand::Nothing),
            },
            KeyCode::BackTab => match v.focus {
                Focus::Setup => (MonitorView { focus: Focus::Send, ..v }, MonitorCommand::Nothing),
                Focus::Receive => (v, MonitorCommand::OpenSetup),
                Focus::Send => (MonitorView { focus: Focus::Receive, ..v }, MonitorCommand::Nothing),
                Focus::HelpOverlay => (MonitorView { focus: Focus::Send, ..v }, MonitorCommand::Nothing),
            },
            _ => match v.focus {
                Focus::Setup => setup_key_step(v, key, mods),
                Focus::Send => send_key_step(v, key, mods),
                Focus::Receive => (receive_key_step(v, key), MonitorCommand::Nothing),
                Focus::HelpOverlay => (v, MonitorCommand::Nothing),
            },
        }
    }
}

/// F3 on the monitor screen, with the help overlay closed, clears the
/// receive log: no line is left, nor any partial received line, the view is
/// back at the top and nothing is owed to the caller. The connection, the
/// settings, the send line and its history, the display and the byte
/// counters stay as they were.
pub proof fn law_f3_clears_receive_log(v: MonitorView, mods: KeyModifiers)
    requires
        !v.show_help,
    ensures
        ({
            let (w, c) = monitor_key_step(v, KeyCode::F(3), mods);
            &&& w.log.len() == 0
            &&& w.rx_line_buf.len() == 0
            &&& w.rx_last_data is None
            &&& w.log_scroll == 0
            &&& c == MonitorCommand::Nothing
            &&& w.connected == v.connected
            &&& w.serial_config == v.serial_config
            &&& w.input_buf == v.input_buf
            &&& w.cursor_pos == v.cursor_pos
            &&& w.send_history == v.send_history
            &&& w.display_mode == v.display_mode
            &&& w.bytes_rx == v.bytes_rx
            &&& w.bytes_tx == v.bytes_tx
            &&& w.focus == v.focus
            &&& w.show_help == v.show_help
        }),
{
}

/// The monitor can take any key without an overflow or a bad index.
pub open spec fn monitor_key_ok(s: &SerialMonitorState, key: KeyCode) -> bool {
    &&& s.input_ok()
    &&& s.history_ok()
    &&& (s.focus == Focus::Send && key is Char ==> utf8_len(s.input_buf@) + 4 <= usize::MAX)
    &&& (s.focus == Focus::Receive && key == KeyCode::Down ==> s.log_scroll + 1 <= usize::MAX)
    &&& (s.focus == Focus::Receive && key == KeyCode::PageDown ==> s.log_scroll + sub_or_zero(
        s.rx_visible_rows as int,
        1,
    ) <= usize::MAX)
    &&& (s.focus == Focus::Setup && key == KeyCode::Right ==> option_index(s@, s.config_field)
        < usize::MAX)
}

impl SerialMonitorState {
    fn handle_setup_key(&mut self, key: KeyCode, mods: KeyModifiers) -> (c: MonitorCommand)
        requires
            monitor_key_ok(old(self), key),
            old(self).focus == Focus::Setup,
        ensures
            (final(self)@, c) == setup_key_step(old(self)@, key, mods),
    {
        match key {
            KeyCode::Esc => {
                self.cancel_setup();
                MonitorCommand::Nothing
            },
            KeyCode::Enter => MonitorCommand::ApplySetup,
            KeyCode::Char('d') if mods.bits == 2 => {
                let was = self.disconnect();
                self.focus = Focus::Send;
                if was {
                    MonitorCommand::CloseLink
                } else {
                    MonitorCommand::Nothing
                }
            },
            KeyCode::Char('r') if mods.bits == 0 && self.config_field == ConfigField::PortName => {
                MonitorCommand::RefreshPorts
            },
            KeyCode::Up => {
                self.config_field = self.config_field.prev();
                MonitorCommand::Nothing
            },
            KeyCode::Down => {
                self.config_field = self.config_field.next();
                MonitorCommand::Nothing
            },
            KeyCode::Left => {
                self.config_field_prev_option();
                MonitorCommand::Nothing
            },
            KeyCode::Right => {
                self.config_field_next_option();
                MonitorCommand::Nothing
            },
            _ => MonitorCommand::Nothing,
        }
    }

    fn handle_send_key(&mut self, key: KeyCode, mods: KeyModifiers) -> (c: MonitorCommand)
        requires
            monitor_key_ok(old(self), key),
            old(self).focus == Focus::Send,
        ensures
            (final(self)@, c) == send_key_step(old(self)@, key, mods),
    {
        match key {
            KeyCode::Enter => MonitorCommand::SendLine,
            KeyCode::Char('d') if mods.bits == 2 => {
                if self.disconnect() {
                    MonitorCommand::CloseLink
                } else {
                    MonitorCommand::Nothing
                }
            },
            KeyCode::Up => {
                self.history_up();
                MonitorCommand::Nothing
            },
            KeyCode::Down => {
                self.history_down();
                MonitorCommand::Nothing
            },
            KeyCode::Left => {
                self.input_cursor_left();
                MonitorCommand::Nothing
            },
            KeyCode::Right => {
                self.input_cursor_right();
                MonitorCommand::Nothing
            },
            KeyCode::Home => {
                self.input_cursor_home();
                MonitorCommand::Nothing
            },
            KeyCode::End => {
                self.input_cursor_end();
                MonitorCommand::Nothing
            },
            KeyCode::Backspace => {
                self.input_backspace();
                MonitorCommand::Nothing
            },
            KeyCode::Delete => {
                self.input_delete();
                MonitorCommand::Nothing
            },
            KeyCode::Char('h') if mods.bits == 2 => {
                self.hex_send_mode = !self.hex_send_mode;
                MonitorCommand::Nothing
            },
            KeyCode::Char('n') if mods.bits == 2 => {
                self.newline_suffix = self.newline_suffix.cycle();
                MonitorCommand::Nothing
            },
            KeyCode::Char(c) => {
                if mods.is_empty() || mods.is_shift_only() {
                    self.input_char(c);
                }
                MonitorCommand::Nothing
            },
            _ => MonitorCommand::Nothing,
        }
    }

    fn handle_receive_key(&mut self, key: KeyCode)
        requires
            monitor_key_ok(old(self), key),
            old(self).focus == Focus::Receive,
        ensures
            final(self)@ == receive_key_step(old(self)@, key),
    {
        let visible = self.rx_visible_rows as usize;
        let page = if visible > 0 { visible - 1 } else { 0 };
        match key {
            KeyCode::Up => self.scroll_up(1),
            KeyCode::Down => self.scroll_down(1),
            KeyCode::PageUp => self.scroll_up(page),
            KeyCode::PageDown => self.scroll_down(page),
            KeyCode::Home => {
                self.log_scroll = 0;
                self.auto_scroll = false;
            },
            KeyCode::End => {
                self.auto_scroll = true;
                self.ensure_auto_scroll();
            },
            _ => {},
        }
    }

    /// Handles a key on the monitor screen.
    pub fn handle_key(&mut self, key: KeyCode, mods: KeyModifiers) -> (c: MonitorCommand)
        requires
            monitor_key_ok(old(self), key),
        ensures
            (final(self)@, c) == monitor_key_step(old(self)@, key, mods),
            !old(self).show_help && key == KeyCode::F(3) ==> final(self)@.log.len() == 0
                && final(self)@.rx_line_buf.len() == 0 && final(self)@.log_scroll == 0
                && final(self)@.rx_last_data is None && c == MonitorCommand::Nothing,
    {
        if self.show_help {
            self.show_help = false;
            self.focus = self.prev_focus;
            return MonitorCommand::Nothing;
        }
        match key {
            KeyCode::F(1) => {
                self.prev_focus = self.focus;
                self.show_help = true;
                self.focus = Focus::HelpOverlay;
                MonitorCommand::Nothing
            },
            KeyCode::F(2) => MonitorCommand::OpenSetup,
            KeyCode::F(3) => {
                self.clear_log();
                MonitorCommand::Nothing
            },
            KeyCode::F(4) => {
                self.display_mode = self.display_mode.next();
                MonitorCommand::Nothing
            },
            KeyCode::F(5) => {
                self.auto_scroll = !self.auto_scroll;
                if self.auto_scroll {
                    self.ensure_auto_scroll();
                }
                MonitorCommand::Nothing
            },
            KeyCode::F(6) => MonitorCommand::CopyLog,
            KeyCode::F(7) => MonitorCommand::SaveLog,
            KeyCode::Tab if mods.bits == 0 => {
                match self.focus {
                    Focus::Setup => {
                        self.focus = Focus::Receive;
                        MonitorCommand::Nothing
                    },
                    Focus::Receive => {
                        self.focus = Focus::Send;
                        MonitorCommand::Nothing
                    },
                    Focus::Send => MonitorCommand::OpenSetup,
                    Focus::HelpOverlay => {
                        self.focus = Focus::Send;
                        MonitorCommand::Nothing
                    },
                }
            },
            KeyCode::BackTab => {
                match self.focus {
                    Focus::Setup => {
                        self.focus = Focus::Send;
                        MonitorCommand::Nothing
                    },
                    Focus::Receive => MonitorCommand::OpenSetup,
                    Focus::Send => {
                        self.focus = Focus::Receive;
                        MonitorCommand::Nothing
                    },
                    Focus::HelpOverlay => {
                        self.focus = Focus::Send;
                        MonitorCommand::Nothing
                    },
                }
            },
            _ => match self.focus {
                Focus::Setup => self.handle_setup_key(key, mods),
                Focus::Send => self.handle_send_key(key, mods),
                Focus::Receive => {
                    self.handle_receive_key(key);
                    MonitorCommand::Nothing
                },
                Focus::HelpOverlay => MonitorCommand::Nothing,
            },
        }
    }
}

} // verus!

use debug_assistant::keys::{KeyCode, KeyModifiers};
use debug_assistant::lossy::{decode_export_text, decode_utf8_display};
use debug_assistant::monitor::{
    parse_hex_input, ConfigField, Direction, DisplayMode, Focus, NewlineSuffix,
    SerialMonitorState,
};
use debug_assistant::monitor_keys::MonitorCommand;
use debug_assistant::serial_config::{DataBits, FlowControl, Parity, StopBits};

const NONE: KeyModifiers = KeyModifiers { bits: 0 };
const CTRL: KeyModifiers = KeyModifiers { bits: 2 };

fn lines(s: &SerialMonitorState) -> Vec<(Vec<u8>, Direction)> {
    s.log.iter().map(|e| (e.raw.clone(), e.direction)).collect()
}

#[test]
fn hex_input_parses_bytes() {
    assert_eq!(parse_hex_input("01 ff A0").unwrap(), vec![0x01, 0xFF, 0xA0]);
    assert_eq!(parse_hex_input("  \t0a\n  ").unwrap(), vec![0x0A]);
    assert_eq!(parse_hex_input("").unwrap(), Vec::<u8>::new());
    assert_eq!(parse_hex_input("+f").unwrap(), vec![0x0F]);
}

#[test]
fn hex_input_names_the_bad_token() {
    assert_eq!(parse_hex_input("01 zz 02").unwrap_err(), "Invalid hex token: 'zz'");
    assert_eq!(parse_hex_input("100").unwrap_err(), "Invalid hex token: '100'");
    assert_eq!(parse_hex_input("0g 1").unwrap_err(), "Invalid hex token: '0g'");
}

#[test]
fn export_text_escapes() {
    assert_eq!(decode_export_text(b"hi\r\n\tok"), "hi\\r\\n\\tok");
    assert_eq!(decode_export_text(&[0x01, b'a']), "[01]a");
    assert_eq!(decode_export_text(&[b'a', 0xFF, b'b']), "a\\xFFb");
    assert_eq!(decode_export_text("中".as_bytes()), "中");
    assert_eq!(decode_export_text(&[0xE4, 0xB8]), "\\xE4\\xB8");
}

#[test]
fn display_text_escapes() {
    assert_eq!(decode_utf8_display(b"a\r\nb\tc"), "ab  c");
    assert_eq!(decode_utf8_display(&[0x7F]), "[7F]");
    assert_eq!(decode_utf8_display(&[0xC3, 0x28]), "\\xC3(");
}

#[test]
fn option_labels() {
    assert_eq!(DisplayMode::Ascii.next(), DisplayMode::Hex);
    assert_eq!(DisplayMode::Both.next(), DisplayMode::Ascii);
    assert_eq!(DisplayMode::Hex.label(), "HEX");
    assert_eq!(NewlineSuffix::CRLF.bytes(), vec![b'\r', b'\n']);
    assert_eq!(NewlineSuffix::NoSuffix.label(), "None");
    assert_eq!(NewlineSuffix::CRLF.cycle(), NewlineSuffix::NoSuffix);
    assert_eq!(ConfigField::PortName.prev(), ConfigField::FlowControl);
    assert_eq!(ConfigField::Parity.next(), ConfigField::FlowControl);
}

#[test]
fn received_bytes_become_lines() {
    let mut s = SerialMonitorState::new();
    s.push_rx(b"hello\r\nwor".to_vec(), 1000);
    assert_eq!(lines(&s), vec![(b"hello".to_vec(), Direction::Rx)]);
    assert_eq!(s.rx_line_buf, b"wor".to_vec());
    assert_eq!(s.bytes_rx, 10);
    s.push_rx(b"ld\n\n".to_vec(), 1010);
    assert_eq!(lines(&s).len(), 2);
    assert_eq!(s.log[1].raw, b"world".to_vec());
    assert!(s.rx_line_buf.is_empty());
    s.push_rx(b"tail".to_vec(), 1020);
    s.flush_rx_buf(1100);
    assert_eq!(lines(&s).len(), 2);
    s.flush_rx_buf(1121);
    assert_eq!(s.log[2].raw, b"tail".to_vec());
    assert_eq!(s.rx_last_data, None);
}

#[test]
fn long_lines_are_cut() {
    let mut s = SerialMonitorState::new();
    s.push_rx(vec![b'x'; 1500], 0);
    assert_eq!(s.log.len(), 1);
    assert_eq!(s.log[0].raw.len(), 1500);
    assert!(s.rx_line_buf.is_empty());
}

#[test]
fn log_keeps_the_last_5000_lines() {
    let mut s = SerialMonitorState::new();
    for i in 0..5003u32 {
        s.push_tx(i.to_string().into_bytes());
    }
    assert_eq!(s.log.len(), 5000);
    assert_eq!(s.log[0].raw, b"3".to_vec());
    assert_eq!(s.log_scroll, 5000 - 20);
}

#[test]
fn send_line_and_history() {
    let mut s = SerialMonitorState::new();
    for c in "AT".chars() {
        s.input_char(c);
    }
    let bytes = s.prepare_current_input_bytes().unwrap();
    assert_eq!(bytes, b"AT\n".to_vec());
    s.commit_sent_input(bytes);
    assert_eq!(s.input_buf, "");
    assert_eq!(s.send_history, vec!["AT".to_string()]);
    assert_eq!(s.bytes_tx, 3);
    assert_eq!(lines(&s), vec![(b"AT\n".to_vec(), Direction::Tx)]);
    s.input_char('A');
    s.input_char('T');
    let b = s.prepare_current_input_bytes().unwrap();
    s.commit_sent_input(b);
    assert_eq!(s.send_history.len(), 1);
    s.history_up();
    assert_eq!(s.input_buf, "AT");
    assert_eq!(s.cursor_pos, 2);
    s.history_down();
    assert_eq!(s.input_buf, "");
    assert_eq!(s.history_idx, None);
}

#[test]
fn hex_send_mode_reports_errors() {
    let mut s = SerialMonitorState::new();
    s.hex_send_mode = true;
    s.newline_suffix = NewlineSuffix::NoSuffix;
    for c in "7f x".chars() {
        s.input_char(c);
    }
    assert_eq!(s.prepare_current_input_bytes(), None);
    assert_eq!(s.log[0].raw, b"Hex error: Invalid hex token: 'x'".to_vec());
    assert_eq!(s.log[0].direction, Direction::Status);
    s.input_backspace();
    s.input_backspace();
    assert_eq!(s.prepare_current_input_bytes(), Some(vec![0x7F]));
}

#[test]
fn empty_line_sends_nothing() {
    let mut s = SerialMonitorState::new();
    assert_eq!(s.prepare_current_input_bytes(), None);
    assert_eq!(s.begin_send(false), None);
    assert!(s.log.is_empty());
    s.input_char('x');
    assert_eq!(s.begin_send(false), None);
    assert_eq!(s.log[0].raw, b"Not connected".to_vec());
    assert_eq!(s.begin_send(true), Some(b"x\n".to_vec()));
}

#[test]
fn setup_form_tracks_current_settings() {
    let mut s = SerialMonitorState::new();
    s.serial_config.port_name = "/dev/ttyUSB1".to_string();
    s.serial_config.baud_rate = 9600;
    s.serial_config.parity = Parity::Even;
    s.focus_setup(vec!["/dev/ttyUSB0".to_string(), "/dev/ttyUSB1".to_string()]);
    assert_eq!(s.focus, Focus::Setup);
    assert_eq!(s.prev_focus, Focus::Send);
    assert_eq!(s.config_port_idx, 1);
    assert_eq!(s.config_baud_idx, 5);
    assert_eq!(s.config_parity_idx, 1);
    s.config_field = ConfigField::BaudRate;
    s.config_field_next_option();
    assert_eq!(s.config_baud_idx, 6);
    s.config_field = ConfigField::DataBits;
    s.config_field_next_option();
    assert_eq!(s.config_databits_idx, 0);
    s.config_field = ConfigField::StopBits;
    s.config_field_prev_option();
    assert_eq!(s.config_stopbits_idx, 1);
    s.apply_setup();
    assert_eq!(s.serial_config.baud_rate, 19200);
    assert_eq!(s.serial_config.data_bits, DataBits::Five);
    assert_eq!(s.serial_config.stop_bits, StopBits::Two);
    assert_eq!(s.serial_config.flow_control, FlowControl::NoFlowControl);
    assert_eq!(s.serial_config.port_name, "/dev/ttyUSB1");
}

#[test]
fn no_ports_placeholder() {
    let mut s = SerialMonitorState::new();
    s.refresh_port_list(vec![]);
    assert_eq!(s.config_port_list, vec!["(no ports found)".to_string()]);
    assert_eq!(s.config_port_idx, 0);
    assert_eq!(s.config_baud_idx, 9);
}

#[test]
fn connect_and_disconnect_status() {
    let mut s = SerialMonitorState::new();
    s.serial_config.port_name = "COM3".to_string();
    s.mark_connected();
    assert!(s.connected);
    assert_eq!(s.log[0].raw, b"Connected: COM3 @ 115200 baud".to_vec());
    assert!(s.disconnect());
    assert!(!s.connected);
    assert_eq!(s.log[1].raw, b"Disconnected".to_vec());
    assert!(!s.disconnect());
    assert_eq!(s.log.len(), 2);
}

#[test]
fn export_joins_lines() {
    let mut s = SerialMonitorState::new();
    s.push_tx(b"a\r".to_vec());
    s.push_status("ok".to_string());
    let text = s.export_log_text();
    let parts: Vec<&str> = text.split('\n').collect();
    assert_eq!(parts.len(), 2);
    assert!(parts[0].starts_with('['));
    assert!(parts[0].ends_with(" TX] a\\r"));
    assert!(parts[1].ends_with(" STATUS] ok"));
}

#[test]
fn monitor_keys_move_focus_and_edit() {
    let mut s = SerialMonitorState::new();
    assert_eq!(s.handle_key(KeyCode::F(1), NONE), MonitorCommand::Nothing);
    assert!(s.show_help);
    assert_eq!(s.focus, Focus::HelpOverlay);
    s.handle_key(KeyCode::Char('x'), NONE);
    assert!(!s.show_help);
    assert_eq!(s.focus, Focus::Send);
    assert_eq!(s.handle_key(KeyCode::Tab, NONE), MonitorCommand::OpenSetup);
    assert_eq!(s.handle_key(KeyCode::BackTab, NONE), MonitorCommand::Nothing);
    assert_eq!(s.focus, Focus::Receive);
    s.handle_key(KeyCode::Tab, NONE);
    assert_eq!(s.focus, Focus::Send);
    s.handle_key(KeyCode::Char('h'), NONE);
    s.handle_key(KeyCode::Char('i'), KeyModifiers { bits: 1 });
    assert_eq!(s.input_buf, "hi");
    s.handle_key(KeyCode::Char('h'), CTRL);
    assert!(s.hex_send_mode);
    s.handle_key(KeyCode::Char('n'), CTRL);
    assert_eq!(s.newline_suffix, NewlineSuffix::CRLF);
    assert_eq!(s.handle_key(KeyCode::Enter, NONE), MonitorCommand::SendLine);
    s.handle_key(KeyCode::F(4), NONE);
    assert_eq!(s.display_mode, DisplayMode::Hex);
    assert_eq!(s.handle_key(KeyCode::F(7), NONE), MonitorCommand::SaveLog);
    s.connected = true;
    assert_eq!(s.handle_key(KeyCode::Char('d'), CTRL), MonitorCommand::CloseLink);
    assert!(!s.connected);
}

#[test]
fn receive_keys_scroll() {
    let mut s = SerialMonitorState::new();
    for i in 0..30u32 {
        s.push_tx(i.to_string().into_bytes());
    }
    assert_eq!(s.log_scroll, 10);
    s.focus = Focus::Receive;
    s.handle_key(KeyCode::Up, NONE);
    assert_eq!(s.log_scroll, 9);
    assert!(!s.auto_scroll);
    s.handle_key(KeyCode::PageDown, NONE);
    assert_eq!(s.log_scroll, 10);
    assert!(s.auto_scroll);
    s.handle_key(KeyCode::Home, NONE);
    assert_eq!(s.log_scroll, 0);
    s.handle_key(KeyCode::End, NONE);
    assert_eq!(s.log_scroll, 10);
}

use std::sync::atomic::{AtomicBool, Ordering};
use std::sync::Arc;
use debug_assistant::flash_start::{check_probe_index, log_file_path, StartError};
use debug_assistant::home::Screen;
use debug_assistant::isp_session::{erase_after_poll, EraseFailure, EraseStep};
use debug_assistant::keys::{KeyCode, KeyModifiers};
use debug_assistant::flash_state::probe_choices;
use debug_assistant::flashing::{FlasherMethod, FlasherSubScreen};
use debug_assistant::firmware::FirmwareError;
use debug_assistant::monitor::{format_line_content, parse_hex_input, Direction, DisplayMode, Focus};
use debug_assistant::numfmt::is_blank;
use debug_assistant::lossy::{decode_export_text, decode_utf8_display};
use debug_assistant::root::{RootApp, RootCommand};
use debug_assistant::serial_config::SerialConfig;

fn connected_app(port: &str) -> RootApp {
    let mut app = RootApp::new();
    let mut cfg = SerialConfig::new();
    cfg.port_name = port.to_string();
    app.serial_monitor.serial_config = cfg;
    app.serial_monitor.mark_connected();
    app
}

#[test]
fn start_isp_without_ports_is_refused() {
    let mut app = RootApp::new();
    app.flasher.enter_protocol_config(FlasherMethod::UsartIsp, vec![]);
    // The form lists the placeholder entry.
    let start = app.start_flash();
    assert!(!start.close_monitor_link);
    assert!(matches!(start.job, Err(StartError::NoPortsAvailable)));
    assert_eq!(app.flasher.sub_screen, FlasherSubScreen::Progress);
    assert_eq!(app.flasher.log, vec!["Error: No serial ports available on this system".to_string()]);
    assert!(app.flasher.op_done);
    assert!(!app.flasher.op_ok);
}

#[test]
fn start_isp_with_empty_port_list_is_refused() {
    let mut app = RootApp::new();
    let start = app.start_flash();
    assert!(matches!(start.job, Err(StartError::NoPortSelected)));
    assert_eq!(app.flasher.log, vec!["Error: No serial port selected".to_string()]);
}

#[test]
fn start_isp_releases_monitor_on_same_port() {
    let mut app = connected_app("/dev/ttyUSB0");
    app.flasher.enter_protocol_config(FlasherMethod::UsartIsp, vec!["/dev/ttyUSB0".to_string()]);
    let monitor_lines = app.serial_monitor.log.len();
    let start = app.start_flash();
    assert!(start.close_monitor_link);
    assert!(matches!(start.job, Err(StartError::Firmware(FirmwareError::EmptyPath))));
    assert!(!app.serial_monitor.connected);
    assert_eq!(app.serial_monitor.log.len(), monitor_lines + 1);
    assert_eq!(app.serial_monitor.log.last().unwrap().raw, b"Disconnected".to_vec());
    assert_eq!(
        app.flasher.log,
        vec![
            "Disconnected serial monitor from /dev/ttyUSB0 before flashing.".to_string(),
            "Error: File path is empty".to_string(),
        ]
    );
    let restore = app.flasher.serial_monitor_restore.as_ref().unwrap();
    assert_eq!(restore.port_name, "/dev/ttyUSB0");
    assert_eq!(restore.serial_config.baud_rate, 115200);
}

#[test]
fn start_isp_keeps_monitor_on_other_port() {
    let mut app = connected_app("/dev/ttyUSB1");
    app.flasher.enter_protocol_config(FlasherMethod::UsartIsp, vec!["/dev/ttyUSB0".to_string()]);
    let start = app.start_flash();
    assert!(!start.close_monitor_link);
    assert!(app.serial_monitor.connected);
    assert!(app.flasher.serial_monitor_restore.is_none());
    assert_eq!(app.flasher.log, vec!["Error: File path is empty".to_string()]);
}

#[test]
fn start_probe_needs_chip_name() {
    let mut app = RootApp::new();
    app.flasher.enter_protocol_config(FlasherMethod::Jtag, vec!["0: probe".to_string()]);
    app.flasher.jtag.chip_name = "   ".to_string();
    app.flasher.jtag.chip_cursor = 3;
    let start = app.start_flash();
    assert!(matches!(start.job, Err(StartError::EmptyChipName)));
    assert_eq!(
        app.flasher.log,
        vec!["Error: Chip name is empty (example: STM32F103C8)".to_string()]
    );
}

#[test]
fn start_swd_with_missing_file() {
    let mut app = RootApp::new();
    app.flasher.enter_protocol_config(FlasherMethod::Swd, vec![]);
    app.flasher.swd.chip_name = "STM32F103C8".to_string();
    app.flasher.swd.chip_cursor = 11;
    app.flasher.swd.file_path = "/nonexistent/app.hex".to_string();
    app.flasher.swd.file_cursor = 20;
    let start = app.start_flash();
    match start.job {
        Err(StartError::Firmware(FirmwareError::FileNotFound(p))) => assert_eq!(p, "/nonexistent/app.hex"),
        _ => panic!("expected a missing file"),
    }
    assert_eq!(app.flasher.log, vec!["Error: File not found: /nonexistent/app.hex".to_string()]);
}

#[test]
fn finish_without_restore() {
    let mut app = RootApp::new();
    app.flasher.enter_progress();
    assert!(app.finish_flash(false, "boom".to_string()).is_none());
    assert_eq!(app.flasher.log, vec!["boom".to_string()]);
    assert!(app.flasher.op_done && !app.flasher.op_ok);
    assert_eq!(app.flasher.log_scroll, usize::MAX);
}

#[test]
fn finish_hands_back_released_port() {
    let mut app = RootApp::new();
    let mut cfg = SerialConfig::new();
    cfg.port_name = "COM3".to_string();
    cfg.baud_rate = 9600;
    app.flasher.plan_serial_monitor_restore(cfg);
    let port = app.finish_flash(true, "Flash complete!".to_string());
    assert_eq!(port, Some("COM3".to_string()));
    assert_eq!(app.serial_monitor.serial_config.baud_rate, 9600);
    assert_eq!(app.flasher.progress_pct, Some(100));
    assert!(app.flasher.serial_monitor_restore.is_none());
}

#[test]
fn restore_success_and_failure_notes() {
    let mut app = RootApp::new();
    app.serial_monitor.serial_config.port_name = "COM3".to_string();
    app.restore_done("COM3".to_string(), None);
    assert!(app.serial_monitor.connected);
    let raws: Vec<Vec<u8>> = app.serial_monitor.log.iter().map(|e| e.raw.clone()).collect();
    assert_eq!(
        raws,
        vec![b"Connected: COM3 @ 115200 baud".to_vec(), b"Restored serial monitor on COM3.".to_vec()]
    );
    assert_eq!(app.flasher.log, vec!["Restored serial monitor on COM3.".to_string()]);

    let mut app = RootApp::new();
    app.restore_done("COM4".to_string(), Some("busy".to_string()));
    assert!(!app.serial_monitor.connected);
    assert_eq!(app.flasher.log, vec!["Failed to restore serial monitor on COM4: busy".to_string()]);
    assert_eq!(app.flasher.log_scroll, usize::MAX);
}

#[test]
fn probe_choices_numbered() {
    assert_eq!(probe_choices(vec![]), vec!["(no probes found)".to_string()]);
    assert_eq!(
        probe_choices(vec!["ST-Link V2".to_string(), "J-Link".to_string()]),
        vec!["0: ST-Link V2".to_string(), "1: J-Link".to_string()]
    );
}

#[test]
fn blank_text() {
    assert!(is_blank(""));
    assert!(is_blank(" \n\t"));
    assert!(!is_blank(" a "));
}

#[test]
fn flasher_log_text_joins_lines() {
    let mut app = RootApp::new();
    assert_eq!(app.flasher.log_text(), "");
    app.flasher.push_log_line("one".to_string());
    app.flasher.push_log_line("two".to_string());
    assert_eq!(app.flasher.log_text(), "one\ntwo");
}

#[test]
fn link_failure_logs_error_once() {
    let mut app = connected_app("COM1");
    assert!(app.serial_monitor.link_failed("gone".to_string()));
    assert!(!app.serial_monitor.connected);
    let last = app.serial_monitor.log.last().unwrap();
    assert_eq!(last.raw, b"Serial error: gone".to_vec());
    assert_eq!(last.direction, Direction::Status);
    let n = app.serial_monitor.log.len();
    assert!(!app.serial_monitor.link_failed("again".to_string()));
    assert_eq!(app.serial_monitor.log.len(), n);
}

#[test]
fn apply_setup_reports_open_link() {
    let mut app = connected_app("COM1");
    app.serial_monitor.focus_setup(vec!["COM1".to_string(), "COM2".to_string()]);
    app.serial_monitor.config_port_idx = 1;
    assert!(app.serial_monitor.begin_apply_setup());
    assert_eq!(app.serial_monitor.serial_config.port_name, "COM2");
    assert!(!app.serial_monitor.connected);
    assert_eq!(app.serial_monitor.log.last().unwrap().raw, b"Disconnected".to_vec());
    assert_eq!(app.serial_monitor.focus, Focus::Setup);
    app.serial_monitor.setup_applied();
    assert_eq!(app.serial_monitor.focus, Focus::Send);
}

#[test]
fn line_content_in_each_mode() {
    let raw = [0x48u8, 0x69, 0x0A, 0xFF];
    assert_eq!(format_line_content(&raw, DisplayMode::Hex), "48 69 0A FF ");
    assert_eq!(format_line_content(&raw, DisplayMode::Both), "48 69 0A FF  Hi..");
    assert_eq!(format_line_content(&raw, DisplayMode::Ascii), "Hi\\xFF");
    assert_eq!(format_line_content(&[], DisplayMode::Both), "  ");
}

#[test]
fn setup_summary_line() {
    let mut app = RootApp::new();
    app.serial_monitor.focus_setup(vec![]);
    assert_eq!(app.serial_monitor.setup_summary("COM3"), "COM3 @ 115200 8N1  Flow: None");
}

#[test]
fn history_keeps_the_last_100_lines() {
    let mut app = RootApp::new();
    let m = &mut app.serial_monitor;
    for i in 0..101u32 {
        for c in i.to_string().chars() {
            m.input_char(c);
        }
        let bytes = m.input_buf.clone().into_bytes();
        m.commit_sent_input(bytes);
    }
    assert_eq!(m.send_history.len(), 100);
    assert_eq!(m.send_history.first().unwrap(), "1");
    assert_eq!(m.send_history.last().unwrap(), "100");
}

#[test]
fn hex_display_parses_back() {
    let raw = vec![0x00u8, 0x0F, 0x7F, 0x80, 0xFF, 0x41];
    let shown = format_line_content(&raw, DisplayMode::Hex);
    assert_eq!(shown, "00 0F 7F 80 FF 41 ");
    assert_eq!(parse_hex_input(&shown).unwrap(), raw);
    assert_eq!(parse_hex_input(&format_line_content(&[], DisplayMode::Hex)).unwrap(), Vec::<u8>::new());
}

#[test]
fn plain_text_exports_unchanged() {
    let text = "héllo, 中文 ok";
    assert_eq!(decode_export_text(text.as_bytes()), text);
    assert_eq!(decode_utf8_display(text.as_bytes()), text);
}

#[test]
fn probe_index_still_listed() {
    assert!(check_probe_index(0, 1).is_ok());
    assert_eq!(
        check_probe_index(2, 2).unwrap_err(),
        "Selected probe is no longer available (index 2, found 2)"
    );
}

#[test]
fn log_file_names() {
    assert_eq!(
        log_file_path("serial", "20260426-153012", "data"),
        Some("logs/serial-20260426-153012.log".to_string())
    );
    assert_eq!(log_file_path("flasher", "20260426-153045", " \n"), None);
}

#[test]
fn erase_poll_cancels_when_unwanted() {
    assert_eq!(erase_after_poll(true), EraseStep::Poll);
    assert_eq!(erase_after_poll(false), EraseStep::Failed(EraseFailure::Cancelled));
}

#[test]
fn quit_key_only_on_pages() {
    const NONE: KeyModifiers = KeyModifiers { bits: 0 };
    for screen in [Screen::Home, Screen::Uart, Screen::Jtag, Screen::Swd, Screen::I2c, Screen::Spi] {
        let mut app = RootApp::new();
        app.current_screen = screen;
        app.on_key(KeyCode::Char('q'), NONE);
        assert!(app.should_quit);
    }
    for screen in [Screen::SerialMonitor, Screen::Flasher] {
        let mut app = RootApp::new();
        app.current_screen = screen;
        app.on_key(KeyCode::Char('q'), NONE);
        assert!(!app.should_quit);
        assert_eq!(app.current_screen, screen);
    }
}

#[test]
fn esc_from_jtag_form_goes_to_jtag_page() {
    let mut app = RootApp::new();
    app.current_screen = Screen::Flasher;
    app.flasher.enter_protocol_config(FlasherMethod::Jtag, vec![]);
    assert_eq!(app.on_key(KeyCode::Esc, KeyModifiers { bits: 0 }), RootCommand::Nothing);
    assert_eq!(app.current_screen, Screen::Jtag);
    assert!(!app.should_quit);
    assert_eq!(app.flasher.sub_screen, FlasherSubScreen::Config);
}

#[test]
fn other_keys_on_serial_page_change_nothing() {
    let mut app = RootApp::new();
    app.current_screen = Screen::Uart;
    app.serial_selected = 1;
    assert_eq!(app.on_key(KeyCode::Left, KeyModifiers { bits: 0 }), RootCommand::Nothing);
    assert_eq!(app.current_screen, Screen::Uart);
    assert_eq!(app.serial_selected, 1);
    assert!(!app.should_quit);
}

#[test]
fn first_esc_keeps_the_stop_flag() {
    let mut app = RootApp::new();
    app.flasher.enter_progress();
    let flag = Arc::new(AtomicBool::new(false));
    app.flasher.arm_stop_flag(flag.clone());
    app.flasher.handle_progress(KeyCode::Esc);
    assert!(app.flasher.cancel_armed);
    assert!(Arc::ptr_eq(app.flasher.stop_flag.as_ref().unwrap(), &flag));
    assert!(!flag.load(Ordering::Relaxed));
    app.flasher.handle_progress(KeyCode::Esc);
    assert!(app.flasher.stop_flag.is_none());
    assert!(flag.load(Ordering::Relaxed));
    assert_eq!(app.flasher.sub_screen, FlasherSubScreen::Config);
}

#[test]
fn history_never_repeats_the_last_line() {
    let mut app = RootApp::new();
    let m = &mut app.serial_monitor;
    for line in ["a", "a", "b", "a"] {
        m.input_char(line.chars().next().unwrap());
        let bytes = m.input_buf.clone().into_bytes();
        m.commit_sent_input(bytes);
    }
    assert_eq!(m.send_history, vec!["a".to_string(), "b".to_string(), "a".to_string()]);
}

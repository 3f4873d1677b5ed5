use debug_assistant::flash_keys::Action;
use debug_assistant::flash_start::StartError;
use debug_assistant::flash_state::{
    chip_preset, cycle_probe_idx, speed_preset, FlasherState, JtagFlashState, SwdFlashState,
    UsartIspState,
};
use debug_assistant::flashing::{
    FlasherMethod, FlasherSubScreen, IspAutoProfile, IspBootMode, IspConfigField,
    JtagConfigField, SwdConfigField, SwdConnectMode,
};
use debug_assistant::keys::{KeyCode, KeyModifiers};
use debug_assistant::serial_config::SerialConfig;

const NONE: KeyModifiers = KeyModifiers { bits: 0 };

#[test]
fn field_cycles() {
    assert_eq!(IspConfigField::Port.next(), IspConfigField::BaudRate);
    assert_eq!(IspConfigField::Port.prev(), IspConfigField::FilePath);
    assert_eq!(JtagConfigField::FilePath.next(), JtagConfigField::Probe);
    assert_eq!(JtagConfigField::Probe.prev(), JtagConfigField::FilePath);
    assert_eq!(SwdConfigField::Speed.next(), SwdConfigField::ConnectMode);
    assert_eq!(SwdConfigField::Verify.prev(), SwdConfigField::ConnectMode);
    let mut f = SwdConfigField::Probe;
    for _ in 0..9 {
        f = f.next();
    }
    assert_eq!(f, SwdConfigField::Probe);
}

#[test]
fn two_way_options() {
    assert_eq!(IspBootMode::Manual.next(), IspBootMode::Auto);
    assert_eq!(IspBootMode::Auto.prev(), IspBootMode::Manual);
    assert_eq!(IspBootMode::Auto.label(), "Auto");
    assert_eq!(SwdConnectMode::Normal.next(), SwdConnectMode::UnderReset);
    assert_eq!(SwdConnectMode::UnderReset.label(), "Under Reset");
    assert_eq!(IspAutoProfile::Standard.next(), IspAutoProfile::Inverted);
    assert_eq!(IspAutoProfile::Inverted.label(), "BOOT0=Low, RESET=High");
}

#[test]
fn probe_index_cycles() {
    let mut i = 0;
    cycle_probe_idx(&mut i, 3, false);
    assert_eq!(i, 2);
    cycle_probe_idx(&mut i, 3, true);
    assert_eq!(i, 0);
    cycle_probe_idx(&mut i, 0, true);
    assert_eq!(i, 0);
}

#[test]
fn presets() {
    assert_eq!(speed_preset(2), 1000);
    assert_eq!(chip_preset(0), "Custom");
    assert_eq!(chip_preset(11), "STM32L476RG");
}

#[test]
fn fresh_forms() {
    let isp = UsartIspState::new();
    assert_eq!(isp.baud_idx, 7);
    assert_eq!(isp.boot_mode, IspBootMode::Manual);
    let j = JtagFlashState::new();
    assert_eq!(j.bin_base_address, "0x08000000");
    assert_eq!(j.bin_base_cursor, 10);
    assert!(j.verify && j.reset_run);
    let s = SwdFlashState::new();
    assert_eq!(s.connect_mode, SwdConnectMode::Normal);
    let f = FlasherState::new();
    assert_eq!(f.isp_baud(), 115200);
    assert_eq!(f.swd_speed_khz(), 1000);
    assert_eq!(f.jtag_chip_preset(), "Custom");
}

#[test]
fn text_fields_edit_at_cursor() {
    let mut j = JtagFlashState::new();
    j.bin_base_backspace();
    assert_eq!(j.bin_base_address, "0x0800000");
    j.bin_base_input_char('1');
    assert_eq!(j.bin_base_address, "0x08000001");
    j.chip_input_char('S');
    j.chip_backspace();
    assert_eq!(j.chip_name, "");
    let mut isp = UsartIspState::new();
    isp.file_input_char('a');
    isp.file_input_char('b');
    isp.file_cursor_left();
    isp.file_input_char('中');
    assert_eq!(isp.file_path, "a中b");
    isp.file_cursor_home();
    assert_eq!(isp.file_cursor, 0);
    isp.file_cursor_end();
    assert_eq!(isp.file_cursor, 5);
    isp.file_cursor_right();
    assert_eq!(isp.file_cursor, 5);
}

#[test]
fn entering_a_form_clamps_selections() {
    let mut f = FlasherState::new();
    f.usart_isp.port_idx = 5;
    f.enter_protocol_config(FlasherMethod::UsartIsp, vec![]);
    assert_eq!(f.usart_isp.port_list, vec!["(no ports found)".to_string()]);
    assert_eq!(f.usart_isp.port_idx, 0);
    f.jtag.probe_idx = 4;
    f.enter_protocol_config(FlasherMethod::Jtag, vec!["0: a".to_string(), "1: b".to_string()]);
    assert_eq!(f.method, FlasherMethod::Jtag);
    assert_eq!(f.jtag.probe_idx, 1);
    assert_eq!(f.jtag.field, JtagConfigField::Probe);
    assert_eq!(f.sub_screen, FlasherSubScreen::Config);
}

#[test]
fn chip_preset_fills_the_name() {
    let mut f = FlasherState::new();
    f.enter_protocol_config(FlasherMethod::Swd, vec!["(no probes found)".to_string()]);
    f.swd.field = SwdConfigField::ChipPreset;
    assert_eq!(f.handle_key(KeyCode::Right, NONE), Action::Nothing);
    assert_eq!(f.swd.chip_preset_idx, 1);
    assert_eq!(f.swd.chip_name, "STM32F103C8");
    assert_eq!(f.swd.chip_cursor, 11);
    f.handle_key(KeyCode::Left, NONE);
    f.handle_key(KeyCode::Left, NONE);
    assert_eq!(f.swd.chip_preset_idx, 11);
    assert_eq!(f.swd.chip_name, "STM32L476RG");
}

#[test]
fn config_keys() {
    let mut f = FlasherState::new();
    f.enter_protocol_config(FlasherMethod::UsartIsp, vec!["COM1".to_string(), "COM2".to_string()]);
    assert_eq!(f.handle_key(KeyCode::Right, NONE), Action::Nothing);
    assert_eq!(f.usart_isp.port_idx, 1);
    f.handle_key(KeyCode::Down, NONE);
    f.handle_key(KeyCode::Left, NONE);
    assert_eq!(f.usart_isp.baud_idx, 6);
    f.handle_key(KeyCode::Tab, NONE);
    f.handle_key(KeyCode::Right, NONE);
    assert_eq!(f.usart_isp.boot_mode, IspBootMode::Auto);
    f.handle_key(KeyCode::Tab, NONE);
    f.handle_key(KeyCode::Char('x'), NONE);
    f.handle_key(KeyCode::Char('Y'), KeyModifiers { bits: 1 });
    f.handle_key(KeyCode::Char('z'), KeyModifiers { bits: 2 });
    assert_eq!(f.usart_isp.file_path, "xY");
    assert_eq!(f.handle_key(KeyCode::Enter, NONE), Action::StartFlash);
    assert_eq!(f.handle_key(KeyCode::Esc, NONE), Action::GoSerial);
    assert_eq!(f.handle_key(KeyCode::F(6), NONE), Action::CopyLog);
}

#[test]
fn probe_form_keys() {
    let mut f = FlasherState::new();
    f.enter_protocol_config(FlasherMethod::Jtag, vec!["p".to_string()]);
    assert_eq!(f.handle_key(KeyCode::Char('r'), NONE), Action::RefreshProbes);
    f.handle_key(KeyCode::Up, NONE);
    assert_eq!(f.jtag.field, JtagConfigField::FilePath);
    f.handle_key(KeyCode::Char('r'), NONE);
    assert_eq!(f.jtag.file_path, "r");
    f.handle_key(KeyCode::Backspace, NONE);
    assert_eq!(f.jtag.file_path, "");
    f.jtag.field = JtagConfigField::Verify;
    f.handle_key(KeyCode::Left, NONE);
    assert!(!f.jtag.verify);
    assert_eq!(f.handle_key(KeyCode::Esc, NONE), Action::GoHome);
}

#[test]
fn progress_cancel_needs_two_escapes() {
    let mut f = FlasherState::new();
    f.enter_progress();
    f.arm_stop_flag(std::sync::Arc::new(std::sync::atomic::AtomicBool::new(false)));
    f.handle_key(KeyCode::Esc, NONE);
    assert!(f.cancel_armed);
    assert_eq!(f.log, vec!["Press Esc again to cancel flashing.".to_string()]);
    f.handle_key(KeyCode::Esc, NONE);
    assert!(!f.cancel_armed);
    assert!(f.stop_flag.is_none());
    assert_eq!(f.sub_screen, FlasherSubScreen::Config);
}

#[test]
fn progress_esc_after_done_returns() {
    let mut f = FlasherState::new();
    f.enter_progress();
    f.finish_operation(true, "Flash complete!".to_string());
    assert_eq!(f.progress_pct, Some(100));
    assert!(f.op_done && f.op_ok);
    f.handle_key(KeyCode::Esc, NONE);
    assert_eq!(f.sub_screen, FlasherSubScreen::Config);
}

#[test]
fn log_lines_are_capped_and_followed() {
    let mut f = FlasherState::new();
    for i in 0..505u32 {
        f.push_log_line(i.to_string());
    }
    assert_eq!(f.log.len(), 500);
    assert_eq!(f.log[0], "5");
    assert_eq!(f.log_scroll, usize::MAX);
    f.scroll_log_end();
    assert_eq!(f.log_scroll, 480);
    f.scroll_log_up(5);
    assert_eq!(f.log_scroll, 475);
    f.scroll_log_down(100);
    assert_eq!(f.log_scroll, 480);
    f.fail_start("boom".to_string());
    assert_eq!(f.log.last().unwrap(), "Error: boom");
    assert!(f.op_done && !f.op_ok);
}

#[test]
fn start_requests_check_the_form() {
    let mut f = FlasherState::new();
    assert_eq!(f.isp_flash_request().err(), Some(StartError::NoPortSelected));
    f.enter_protocol_config(FlasherMethod::UsartIsp, vec![]);
    assert_eq!(f.isp_flash_request().err(), Some(StartError::NoPortsAvailable));
    assert_eq!(f.selected_port_name(), None);
    f.enter_protocol_config(FlasherMethod::UsartIsp, vec!["COM7".to_string()]);
    assert_eq!(f.selected_port_name(), Some("COM7".to_string()));
    let e = f.isp_flash_request().err().unwrap();
    assert_eq!(e.message(), "File path is empty");
    f.enter_protocol_config(FlasherMethod::Swd, vec![]);
    assert_eq!(f.probe_flash_request().err(), Some(StartError::EmptyChipName));
    assert_eq!(
        StartError::EmptyChipName.message(),
        "Chip name is empty (example: STM32F103C8)"
    );
    f.swd.chip_name = " STM32F103C8 ".to_string();
    f.swd.file_path = "  fw.elf ".to_string();
    let e = f.probe_flash_request().err().unwrap();
    assert_eq!(e.message(), "Only .bin/.hex files are supported (got: fw.elf)");
}

#[test]
fn restore_plan_round_trip() {
    let mut f = FlasherState::new();
    let mut cfg = SerialConfig::new();
    cfg.port_name = "COM4".to_string();
    f.plan_serial_monitor_restore(cfg);
    let r = f.take_serial_monitor_restore().unwrap();
    assert_eq!(r.port_name, "COM4");
    assert!(f.take_serial_monitor_restore().is_none());
}

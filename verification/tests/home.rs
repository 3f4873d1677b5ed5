use debug_assistant::flash_keys::Action;
use debug_assistant::flashing::FlasherMethod;
use debug_assistant::home::{menu_item, HomeAction, HomeState, Screen};
use debug_assistant::keys::{KeyCode, KeyModifiers};
use debug_assistant::root::{RootApp, RootCommand};

const NONE: KeyModifiers = KeyModifiers { bits: 0 };

#[test]
fn home_menu_wraps() {
    let mut h = HomeState::new();
    assert_eq!(h.handle_key(KeyCode::Up, NONE), None);
    assert_eq!(h.selected, 5);
    assert_eq!(menu_item(h.selected), "Quit");
    assert_eq!(h.handle_key(KeyCode::Enter, NONE), Some(HomeAction::Quit));
    h.handle_key(KeyCode::Down, NONE);
    assert_eq!(h.selected, 0);
    assert_eq!(h.handle_key(KeyCode::Enter, NONE), Some(HomeAction::Navigate(Screen::Uart)));
    assert_eq!(h.handle_key(KeyCode::Char('q'), NONE), Some(HomeAction::Quit));
}

#[test]
fn root_navigation() {
    let mut app = RootApp::new();
    app.on_key(KeyCode::Down, NONE);
    app.on_key(KeyCode::Enter, NONE);
    assert_eq!(app.current_screen, Screen::Jtag);
    assert_eq!(app.on_key(KeyCode::Enter, NONE), RootCommand::OpenFlasherConfig(FlasherMethod::Jtag));
    assert_eq!(app.current_screen, Screen::Flasher);
    app.flasher.enter_protocol_config(FlasherMethod::Jtag, vec![]);
    assert_eq!(app.on_key(KeyCode::Esc, NONE), RootCommand::Nothing);
    assert_eq!(app.current_screen, Screen::Jtag);
    app.on_key(KeyCode::Esc, NONE);
    assert_eq!(app.current_screen, Screen::Home);
    app.on_key(KeyCode::Up, NONE);
    app.on_key(KeyCode::Enter, NONE);
    assert_eq!(app.current_screen, Screen::Uart);
    app.on_key(KeyCode::Enter, NONE);
    assert_eq!(app.current_screen, Screen::SerialMonitor);
    assert_eq!(app.on_key(KeyCode::Esc, NONE), RootCommand::Nothing);
    assert_eq!(app.current_screen, Screen::Uart);
    app.on_key(KeyCode::Up, NONE);
    assert_eq!(app.serial_selected, 1);
    assert_eq!(app.on_key(KeyCode::Enter, NONE), RootCommand::OpenFlasherConfig(FlasherMethod::UsartIsp));
    app.flasher.enter_protocol_config(FlasherMethod::UsartIsp, vec![]);
    assert_eq!(app.on_key(KeyCode::F(7), NONE), RootCommand::Flasher(Action::SaveLog));
    app.on_key(KeyCode::Char('c'), KeyModifiers { bits: 2 });
    assert!(app.should_quit);
}

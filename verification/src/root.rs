//! The application's screens and how keys move between them.

use vstd::prelude::*;
use crate::flash_keys::{Action, capped_log, finished_view, flasher_key_ok, flasher_key_step};
use crate::flash_start::{
    IspFlashRequest, ProbeFlashRequest, StartError, isp_outcome, probe_outcome, selected_port,
    start_error_text,
};
use crate::flash_state::{FlasherState, FlasherView};
use crate::flashing::{FlasherMethod, FlasherSubScreen};
use crate::home::{HomeAction, HomeState, Screen, home_step};
use crate::keys::{KeyCode, KeyModifiers};
use crate::monitor::{Focus, MonitorView, SerialMonitorState, with_status};
use crate::monitor_keys::{MonitorCommand, disconnected, monitor_key_ok, monitor_key_step};

verus! {

/// What the caller does after a key was handled.
#[derive(Debug, Clone, Copy, PartialEq, Eq, Structural)]
pub enum RootCommand {
    Nothing,
    /// List the serial ports (USART ISP) or probes (JTAG, SWD) and open
    /// the flashing form of this protocol on them.
    OpenFlasherConfig(FlasherMethod),
    /// Close the serial connection the monitor was just disconnected from.
    CloseSerialLink,
    /// Carry out what the serial monitor asked for.
    Monitor(MonitorCommand),
    /// Carry out what the flashing workbench asked for.
    Flasher(Action),
}

/// The whole application's state.
pub struct RootApp {
    pub current_screen: Screen,
    pub should_quit: bool,
    pub home: HomeState,
    /// Entry selected on the serial page: 0 for the monitor, 1 for ISP.
    pub serial_selected: usize,
    pub serial_monitor: SerialMonitorState,
    pub flasher: FlasherState,
}

/// The page a protocol's flashing form returns to.
pub open spec fn protocol_page(m: FlasherMethod) -> Screen {
    match m {
        FlasherMethod::UsartIsp => Screen::Uart,
        FlasherMethod::Jtag => Screen::Jtag,
        FlasherMethod::Swd => Screen::Swd,
    }
}

/// Ctrl+C, which quits from any screen.
pub open spec fn is_ctrl_c(key: KeyCode, mods: KeyModifiers) -> bool {
    key == KeyCode::Char('c') && mods.bits == 2
}

/// Plain `q`, which quits from the protocol pages.
pub open spec fn is_plain_q(key: KeyCode, mods: KeyModifiers) -> bool {
    key == KeyCode::Char('q') && mods.bits == 0
}

/// The protocol pages: the serial page, the JTAG and SWD pages, and the
/// I2C and SPI placeholders.
pub open spec fn is_page(s: Screen) -> bool {
    s == Screen::Uart || s == Screen::Jtag || s == Screen::Swd || s == Screen::I2c || s == Screen::Spi
}

/// A key on a protocol page: the screen shown next, whether the key asks
/// to quit, the entry selected on the serial page, and what the caller
/// must do. Esc goes home, a plain `q` quits, Enter opens the page's tool
/// (on the serial page, the selected one), Up and Down move the serial
/// page's selection; other keys change nothing.
pub open spec fn page_step(screen: Screen, sel: usize, key: KeyCode, mods: KeyModifiers) -> (
    Screen,
    bool,
    usize,
    RootCommand,
) {
    if key == KeyCode::Esc {
        (Screen::Home, false, sel, RootCommand::Nothing)
    } else if is_plain_q(key, mods) {
        (screen, true, sel, RootCommand::Nothing)
    } else if screen == Screen::Uart {
        if key == KeyCode::Up {
            (screen, false, if sel == 0 { 1usize } else { 0usize }, RootCommand::Nothing)
        } else if key == KeyCode::Down {
            (screen, false, ((sel + 1) % 2) as usize, RootCommand::Nothing)
        } else if key == KeyCode::Enter {
            if sel == 0 {
                (Screen::SerialMonitor, false, sel, RootCommand::Nothing)
            } else {
                (Screen::Flasher, false, sel, RootCommand::OpenFlasherConfig(FlasherMethod::UsartIsp))
            }
        } else {
            (screen, false, sel, RootCommand::Nothing)
        }
    } else if (screen == Screen::Jtag || screen == Screen::Swd) && key == KeyCode::Enter {
        (
            Screen::Flasher,
            false,
            sel,
            RootCommand::OpenFlasherConfig(
                if screen == Screen::Jtag {
                    FlasherMethod::Jtag
                } else {
                    FlasherMethod::Swd
                },
            ),
        )
    } else {
        (screen, false, sel, RootCommand::Nothing)
    }
}

impl RootApp {
    /// The application on the home menu with fresh screens.
    pub fn new() -> (app: RootApp)
        ensures
            app.current_screen == Screen::Home,
            !app.should_quit,
            app.home.selected == 0,
            app.serial_selected == 0,
            app.flasher.wf(),
            app.flasher@ == FlasherState::new_view(),
            app.serial_monitor@ == SerialMonitorState::new_view(),
    {
        RootApp {
            current_screen: Screen::Home,
            should_quit: false,
            home: HomeState::new(),
            serial_selected: 0,
            serial_monitor: SerialMonitorState::new(),
            flasher: FlasherState::new(),
        }
    }

    /// Every tick: commits a partial received line that timed out and
    /// follows the monitor log.
    pub fn on_tick(&mut self, now_ms: u64)
        ensures
            final(self).current_screen == old(self).current_screen,
            final(self).serial_monitor@ == crate::monitor::flushed_view(
                old(self).serial_monitor@,
                now_ms,
            ).auto_scrolled(),
    {
        self.serial_monitor.flush_rx_buf(now_ms);
        self.serial_monitor.ensure_auto_scroll();
    }

    /// Handles a key: Ctrl+C quits (stopping any flashing); otherwise the
    /// current screen takes it.
    pub fn on_key(&mut self, key: KeyCode, mods: KeyModifiers) -> (c: RootCommand)
        requires
            old(self).current_screen == Screen::Home && key == KeyCode::Down ==> old(self).home.selected
                < usize::MAX,
            old(self).current_screen == Screen::Flasher ==> flasher_key_ok(&old(self).flasher, key),
            old(self).current_screen == Screen::SerialMonitor ==> monitor_key_ok(
                &old(self).serial_monitor,
                key,
            ),
        ensures
            is_ctrl_c(key, mods) ==> final(self).should_quit && c == RootCommand::Nothing
                && final(self).flasher@ == (FlasherView {
                cancel_armed: false,
                has_stop_flag: false,
                ..old(self).flasher@
            }) && final(self).current_screen == old(self).current_screen,
            !is_ctrl_c(key, mods) && old(self).current_screen == Screen::Home ==> {
                let (sel, act) = home_step(old(self).home.selected, key);
                &&& final(self).home.selected == sel
                &&& c == RootCommand::Nothing
                &&& final(self).current_screen == (match act {
                    Some(HomeAction::Navigate(s)) => s,
                    _ => Screen::Home,
                })
                &&& final(self).should_quit == (old(self).should_quit || act == Some(
                    HomeAction::Quit,
                ))
            },
            !is_ctrl_c(key, mods) && is_page(old(self).current_screen) ==> {
                let (screen, quit, sel, cmd) = page_step(
                    old(self).current_screen,
                    old(self).serial_selected,
                    key,
                    mods,
                );
                &&& final(self).current_screen == screen
                &&& final(self).should_quit == (old(self).should_quit || quit)
                &&& final(self).serial_selected == sel
                &&& c == cmd
            },
            !(!is_ctrl_c(key, mods) && old(self).current_screen == Screen::Home) ==> final(self).home
                == old(self).home,
            !(!is_ctrl_c(key, mods) && old(self).current_screen == Screen::Uart)
                ==> final(self).serial_selected == old(self).serial_selected,
            !(!is_ctrl_c(key, mods) && old(self).current_screen == Screen::SerialMonitor)
                ==> final(self).serial_monitor@ == old(self).serial_monitor@,
            !(is_ctrl_c(key, mods) || old(self).current_screen == Screen::Flasher)
                ==> final(self).flasher@ == old(self).flasher@,
            !is_ctrl_c(key, mods) && (old(self).current_screen == Screen::SerialMonitor
                || old(self).current_screen == Screen::Flasher) ==> final(self).should_quit
                == old(self).should_quit,
            !is_ctrl_c(key, mods) && old(self).current_screen == Screen::SerialMonitor ==> {
                let m = old(self).serial_monitor@;
                if key == KeyCode::Esc && mods.bits == 0 && m.focus != Focus::Setup && !m.show_help {
                    &&& final(self).serial_monitor@ == disconnected(m)
                    &&& final(self).current_screen == Screen::Uart
                    &&& c == (if m.connected {
                        RootCommand::CloseSerialLink
                    } else {
                        RootCommand::Nothing
                    })
                } else {
                    &&& (final(self).serial_monitor@, c) == (
                        monitor_key_step(m, key, mods).0,
                        RootCommand::Monitor(monitor_key_step(m, key, mods).1),
                    )
                    &&& final(self).current_screen == Screen::SerialMonitor
                }
            },
            !is_ctrl_c(key, mods) && old(self).current_screen == Screen::Flasher ==> {
                let (fv, a) = flasher_key_step(old(self).flasher@, key, mods);
                &&& final(self).flasher@ == fv
                &&& final(self).flasher.wf()
                &&& final(self).current_screen == (match a {
                    Action::GoHome => protocol_page(old(self).flasher.method),
                    Action::GoSerial => Screen::Uart,
                    _ => Screen::Flasher,
                })
                &&& c == (match a {
                    Action::GoHome | Action::GoSerial | Action::Nothing => RootCommand::Nothing,
                    _ => RootCommand::Flasher(a),
                })
            },
    {
        if key == KeyCode::Char('c') && mods.bits == 2 {
            self.flasher.request_stop();
            self.should_quit = true;
            RootCommand::Nothing
        } else {
            match self.current_screen {
                Screen::Home => {
                    match self.home.handle_key(key, mods) {
                        Some(HomeAction::Navigate(s)) => {
                            self.current_screen = s;
                        },
                        Some(HomeAction::Quit) => {
                            self.should_quit = true;
                        },
                        None => {},
                    }
                    RootCommand::Nothing
                },
                Screen::Uart => match key {
                    KeyCode::Esc => {
                        self.current_screen = Screen::Home;
                        RootCommand::Nothing
                    },
                    KeyCode::Char('q') if mods.bits == 0 => {
                        self.should_quit = true;
                        RootCommand::Nothing
                    },
                    KeyCode::Up => {
                        self.serial_selected = if self.serial_selected == 0 { 1 } else { 0 };
                        RootCommand::Nothing
                    },
                    KeyCode::Down => {
                        self.serial_selected = (self.serial_selected % 2 + 1) % 2;
                        RootCommand::Nothing
                    },
                    KeyCode::Enter => {
                        if self.serial_selected == 0 {
                            self.current_screen = Screen::SerialMonitor;
                            RootCommand::Nothing
                        } else {
                            self.current_screen = Screen::Flasher;
                            RootCommand::OpenFlasherConfig(FlasherMethod::UsartIsp)
                        }
                    },
                    _ => RootCommand::Nothing,
                },
                Screen::Jtag | Screen::Swd => {
                    let m = if self.current_screen == Screen::Jtag {
                        FlasherMethod::Jtag
                    } else {
                        FlasherMethod::Swd
                    };
                    match key {
                        KeyCode::Esc => {
                            self.current_screen = Screen::Home;
                            RootCommand::Nothing
                        },
                        KeyCode::Char('q') if mods.bits == 0 => {
                            self.should_quit = true;
                            RootCommand::Nothing
                        },
                        KeyCode::Enter => {
                            self.current_screen = Screen::Flasher;
                            RootCommand::OpenFlasherConfig(m)
                        },
                        _ => RootCommand::Nothing,
                    }
                },
                Screen::I2c | Screen::Spi => {
                    if key == KeyCode::Esc {
                        self.current_screen = Screen::Home;
                    } else if key == KeyCode::Char('q') && mods.bits == 0 {
                        self.should_quit = true;
                    }
                    RootCommand::Nothing
                },
                Screen::SerialMonitor => {
                    if key == KeyCode::Esc && mods.bits == 0 && self.serial_monitor.focus != Focus::Setup
                        && !self.serial_monitor.show_help {
                        let was = self.serial_monitor.disconnect();
                        self.current_screen = Screen::Uart;
                        if was {
                            RootCommand::CloseSerialLink
                        } else {
                            RootCommand::Nothing
                        }
                    } else {
                        RootCommand::Monitor(self.serial_monitor.handle_key(key, mods))
                    }
                },
                Screen::Flasher => {
                    let a = self.flasher.handle_key(key, mods);
                    match a {
                        Action::GoHome => {
                            self.current_screen = match self.flasher.method {
                                FlasherMethod::UsartIsp => Screen::Uart,
                                FlasherMethod::Jtag => Screen::Jtag,
                                FlasherMethod::Swd => Screen::Swd,
                            };
                            RootCommand::Nothing
                        },
                        Action::GoSerial => {
                            self.current_screen = Screen::Uart;
                            RootCommand::Nothing
                        },
                        Action::Nothing => RootCommand::Nothing,
                        _ => RootCommand::Flasher(a),
                    }
                },
            }
        }
    }
}

/// The operation a flashing form asked for, once checked.
pub enum FlashJob {
    Isp(IspFlashRequest),
    Probe(ProbeFlashRequest),
}

/// What pressing Enter on a flashing form leads to.
pub struct FlashStart {
    /// The serial monitor was disconnected to free the port: its
    /// connection must be closed.
    pub close_monitor_link: bool,
    /// The operation to run, or why it cannot start (already logged).
    pub job: Result<FlashJob, StartError>,
}

/// Flashing over USART ISP takes the port of a serial monitor connected
/// to the selected port.
pub open spec fn releases_monitor(f: FlasherView, m: MonitorView) -> bool {
    &&& f.method == FlasherMethod::UsartIsp
    &&& m.connected
    &&& selected_port(f.usart_isp) == Some(m.serial_config.port_name)
}

/// The log line noting that the monitor gave up `port`.
pub open spec fn release_note(port: Seq<char>) -> Seq<char> {
    "Disconnected serial monitor from "@ + port + " before flashing."@
}

/// The workbench as an operation starts: the progress view with a fresh
/// log (noting a released monitor), and for USART ISP a plan to restore
/// the released monitor connection, or none.
pub open spec fn flash_started(f: FlasherView, m: MonitorView) -> FlasherView {
    let release = releases_monitor(f, m);
    FlasherView {
        sub_screen: FlasherSubScreen::Progress,
        log: if release {
            seq![release_note(m.serial_config.port_name)]
        } else {
            Seq::empty()
        },
        log_scroll: 0,
        progress_pct: None,
        op_done: false,
        op_ok: false,
        cancel_armed: false,
        has_stop_flag: false,
        serial_monitor_restore: if f.method != FlasherMethod::UsartIsp {
            f.serial_monitor_restore
        } else if release {
            Some((m.serial_config.port_name, m.serial_config))
        } else {
            None
        },
        ..f
    }
}

/// The workbench after an operation could not start.
pub open spec fn start_refused(v: FlasherView, e: StartError) -> FlasherView {
    FlasherView {
        log: v.log.push("Error: "@ + start_error_text(e)),
        op_done: true,
        op_ok: false,
        ..v
    }
}

/// The log line after reopening the monitor's port, or failing to.
pub open spec fn restore_note(port: Seq<char>, failure: Option<Seq<char>>) -> Seq<char> {
    match failure {
        None => "Restored serial monitor on "@ + port + "."@,
        Some(e) => "Failed to restore serial monitor on "@ + port + ": "@ + e,
    }
}

/// The monitor once its port was opened with its current settings.
pub open spec fn connected_view(m: MonitorView) -> MonitorView {
    with_status(
        MonitorView { connected: true, ..m },
        "Connected: "@ + m.serial_config.port_name + " @ "@ + crate::numfmt::decimal_text(
            m.serial_config.baud_rate as nat,
        ) + " baud"@,
    )
}

/// A serial monitor connected to the port USART ISP flashes over is
/// disconnected when the operation starts, with its settings kept as the
/// plan to restore it; the plan is still there however the operation ends
/// (or when it was refused), so the monitor is offered back its own port
/// and settings. Flashing another port, or over a probe, releases nothing
/// and plans no restore of its own.
pub proof fn law_released_monitor_is_restored(
    f: FlasherView,
    m: MonitorView,
    e: StartError,
    success: bool,
    message: Seq<char>,
)
    ensures
        releases_monitor(f, m) ==> {
            let plan = Some((m.serial_config.port_name, m.serial_config));
            &&& flash_started(f, m).serial_monitor_restore == plan
            &&& finished_view(flash_started(f, m), success, message).serial_monitor_restore == plan
            &&& start_refused(flash_started(f, m), e).serial_monitor_restore == plan
            &&& disconnected(m).serial_config == m.serial_config
            &&& !disconnected(m).connected
        },
        !releases_monitor(f, m) && f.method == FlasherMethod::UsartIsp
            ==> flash_started(f, m).serial_monitor_restore is None,
        f.method != FlasherMethod::UsartIsp ==> flash_started(f, m).serial_monitor_restore
            == f.serial_monitor_restore,
{
}

impl RootApp {
    /// Starts the operation of the open flashing form: for USART ISP, a
    /// serial monitor connected to the selected port is disconnected and
    /// planned to be restored afterwards; the progress view opens; the form
    /// is checked, and a refusal is logged as an error.
    pub fn start_flash(&mut self) -> (s: FlashStart)
        requires
            old(self).flasher.wf(),
            old(self).flasher.usart_isp.port_list@.len() > 0 ==> old(self).flasher.usart_isp.port_idx
                < old(self).flasher.usart_isp.port_list@.len(),
        ensures
            final(self).flasher.wf(),
            final(self).current_screen == old(self).current_screen,
            final(self).should_quit == old(self).should_quit,
            final(self).home == old(self).home,
            final(self).serial_selected == old(self).serial_selected,
            s.close_monitor_link == releases_monitor(old(self).flasher@, old(self).serial_monitor@),
            final(self).serial_monitor@ == (if s.close_monitor_link {
                disconnected(old(self).serial_monitor@)
            } else {
                old(self).serial_monitor@
            }),
            old(self).flasher.method == FlasherMethod::UsartIsp ==> match s.job {
                Ok(FlashJob::Isp(req)) => isp_outcome(old(self).flasher@, Ok(req)),
                Ok(FlashJob::Probe(_)) => false,
                Err(e) => isp_outcome(old(self).flasher@, Err(e)),
            },
            old(self).flasher.method != FlasherMethod::UsartIsp ==> match s.job {
                Ok(FlashJob::Probe(req)) => probe_outcome(old(self).flasher@, Ok(req)),
                Ok(FlashJob::Isp(_)) => false,
                Err(e) => probe_outcome(old(self).flasher@, Err(e)),
            },
            final(self).flasher@ == (match s.job {
                Ok(_) => flash_started(old(self).flasher@, old(self).serial_monitor@),
                Err(e) => start_refused(flash_started(old(self).flasher@, old(self).serial_monitor@), e),
            }),
    {
        let ghost f0 = self.flasher@;
        let ghost m0 = self.serial_monitor@;
        let isp = self.flasher.method == FlasherMethod::UsartIsp;
        let mut note: Option<String> = None;
        if isp {
            self.flasher.clear_serial_monitor_restore();
            match self.flasher.selected_port_name() {
                Some(port) => {
                    if self.serial_monitor.connected && self.serial_monitor.serial_config.port_name == port {
                        let cfg = self.serial_monitor.serial_config.copy();
                        self.flasher.plan_serial_monitor_restore(cfg);
                        self.serial_monitor.disconnect();
                        let mut line = String::from_str("Disconnected serial monitor from ");
                        line.append(port.as_str());
                        line.append(" before flashing.");
                        note = Some(line);
                    }
                },
                None => {},
            }
        }
        let close = note.is_some();
        self.flasher.enter_progress();
        match note {
            Some(line) => {
                self.flasher.log.push(line);
            },
            None => {},
        }
        proof {
            assert(self.flasher.log.deep_view() =~= flash_started(f0, m0).log);
            assert(self.flasher@ == flash_started(f0, m0));
        }
        let job = if isp {
            match self.flasher.isp_flash_request() {
                Ok(req) => Ok(FlashJob::Isp(req)),
                Err(e) => Err(e),
            }
        } else {
            match self.flasher.probe_flash_request() {
                Ok(req) => Ok(FlashJob::Probe(req)),
                Err(e) => Err(e),
            }
        };
        match &job {
            Ok(_) => {},
            Err(e) => {
                self.flasher.fail_start(e.message());
            },
        }
        FlashStart { close_monitor_link: close, job }
    }

    /// Records that the operation ended (see `finish_operation`); when a
    /// serial monitor connection was released for it, the monitor takes
    /// its settings back and the port to reopen is handed out.
    pub fn finish_flash(&mut self, success: bool, message: String) -> (port: Option<String>)
        requires
            old(self).flasher.wf(),
        ensures
            final(self).flasher.wf(),
            final(self).current_screen == old(self).current_screen,
            final(self).should_quit == old(self).should_quit,
            match old(self).flasher@.serial_monitor_restore {
                None => {
                    &&& port is None
                    &&& final(self).flasher@ == finished_view(old(self).flasher@, success, message@)
                    &&& final(self).serial_monitor@ == old(self).serial_monitor@
                },
                Some((p, cfg)) => {
                    &&& port is Some && port->0@ == p
                    &&& final(self).flasher@ == (FlasherView {
                        serial_monitor_restore: None,
                        ..finished_view(old(self).flasher@, success, message@)
                    })
                    &&& final(self).serial_monitor@ == (MonitorView {
                        serial_config: cfg,
                        ..old(self).serial_monitor@
                    })
                },
            },
    {
        self.flasher.finish_operation(success, message);
        match self.flasher.take_serial_monitor_restore() {
            Some(restore) => {
                self.serial_monitor.serial_config = restore.serial_config;
                Some(restore.port_name)
            },
            None => None,
        }
    }

    /// Records how reopening the released monitor connection on `port`
    /// went (`failure` is the reason it could not be opened): the monitor
    /// logs it, after its connection note on success, and so does the
    /// workbench's log, which follows its end.
    pub fn restore_done(&mut self, port: String, failure: Option<String>)
        ensures
            final(self).current_screen == old(self).current_screen,
            final(self).should_quit == old(self).should_quit,
            ({
                let failed = match failure {
                    Some(e) => Some(e@),
                    None => None,
                };
                let note = restore_note(port@, failed);
                &&& final(self).serial_monitor@ == with_status(
                    if failure is None {
                        connected_view(old(self).serial_monitor@)
                    } else {
                        old(self).serial_monitor@
                    },
                    note,
                )
                &&& final(self).flasher@ == (FlasherView {
                    log: capped_log(old(self).flasher@.log, note),
                    log_scroll: usize::MAX,
                    ..old(self).flasher@
                })
            }),
            final(self).flasher.usart_isp == old(self).flasher.usart_isp,
            final(self).flasher.jtag == old(self).flasher.jtag,
            final(self).flasher.swd == old(self).flasher.swd,
    {
        let mut note = String::new();
        match failure {
            None => {
                self.serial_monitor.mark_connected();
                note.append("Restored serial monitor on ");
                note.append(port.as_str());
                note.append(".");
            },
            Some(e) => {
                note.append("Failed to restore serial monitor on ");
                note.append(port.as_str());
                note.append(": ");
                note.append(e.as_str());
            },
        }
        let line = note.clone();
        self.serial_monitor.push_status(note);
        self.flasher.push_log_line(line);
    }
}

} // verus!

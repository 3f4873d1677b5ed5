//! The home menu and the screens the application moves between.

use vstd::prelude::*;
use crate::keys::{KeyCode, KeyModifiers};

verus! {

/// The screens of the application.
#[derive(Debug, Clone, Copy, PartialEq, Eq, Structural)]
pub enum Screen {
    Home,
    Uart,
    Jtag,
    Swd,
    I2c,
    Spi,
    SerialMonitor,
    Flasher,
}

/// Number of entries of the home menu.
pub const MENU_ITEM_COUNT: usize = 6;

/// Entries of the home menu, top to bottom.
pub open spec fn menu_items() -> Seq<Seq<char>> {
    seq!["UART"@, "JTAG"@, "SWD"@, "I2C"@, "SPI"@, "Quit"@]
}

/// The home menu entry at `idx`.
pub fn menu_item(idx: usize) -> (s: &'static str)
    requires
        idx < MENU_ITEM_COUNT,
    ensures
        s@ == menu_items()[idx as int],
{
    match idx {
        0 => "UART",
        1 => "JTAG",
        2 => "SWD",
        3 => "I2C",
        4 => "SPI",
        _ => "Quit",
    }
}

/// What choosing on the home menu leads to.
#[derive(Debug, Clone, Copy, PartialEq, Eq, Structural)]
pub enum HomeAction {
    Navigate(Screen),
    Quit,
}

/// The home menu's selection.
#[derive(Debug, Clone, Copy, PartialEq, Eq, Structural)]
pub struct HomeState {
    pub selected: usize,
}

/// The screen a home menu entry opens (`None` for "Quit").
pub open spec fn menu_target(selected: usize) -> Option<Screen> {
    if selected == 0 {
        Some(Screen::Uart)
    } else if selected == 1 {
        Some(Screen::Jtag)
    } else if selected == 2 {
        Some(Screen::Swd)
    } else if selected == 3 {
        Some(Screen::I2c)
    } else if selected == 4 {
        Some(Screen::Spi)
    } else {
        None
    }
}

/// The selection after a key on the home menu, and what it leads to.
pub open spec fn home_step(selected: usize, code: KeyCode) -> (usize, Option<HomeAction>) {
    match code {
        KeyCode::Up => (
            if selected == 0 {
                (MENU_ITEM_COUNT - 1) as usize
            } else {
                (selected - 1) as usize
            },
            None,
        ),
        KeyCode::Down => (((selected + 1) % (MENU_ITEM_COUNT as int)) as usize, None),
        KeyCode::Enter => (
            selected,
            Some(
                match menu_target(selected) {
                    Some(s) => HomeAction::Navigate(s),
                    None => HomeAction::Quit,
                },
            ),
        ),
        KeyCode::Char('q') => (selected, Some(HomeAction::Quit)),
        _ => (selected, None),
    }
}

impl HomeState {
    /// The menu with its first entry selected.
    pub fn new() -> (s: HomeState)
        ensures
            s.selected == 0,
    {
        HomeState { selected: 0 }
    }

    /// Handles a key: Up and Down move the selection round the menu, Enter
    /// opens the selected entry, `q` quits.
    pub fn handle_key(&mut self, code: KeyCode, mods: KeyModifiers) -> (r: Option<HomeAction>)
        requires
            code == KeyCode::Down ==> old(self).selected < usize::MAX,
        ensures
            (final(self).selected, r) == home_step(old(self).selected, code),
    {
        match code {
            KeyCode::Up => {
                if self.selected == 0 {
                    self.selected = MENU_ITEM_COUNT - 1;
                } else {
                    self.selected = self.selected - 1;
                }
                None
            },
            KeyCode::Down => {
                self.selected = (self.selected + 1) % MENU_ITEM_COUNT;
                None
            },
            KeyCode::Enter => Some(
                match self.selected {
                    0 => HomeAction::Navigate(Screen::Uart),
                    1 => HomeAction::Navigate(Screen::Jtag),
                    2 => HomeAction::Navigate(Screen::Swd),
                    3 => HomeAction::Navigate(Screen::I2c),
                    4 => HomeAction::Navigate(Screen::Spi),
                    _ => HomeAction::Quit,
                },
            ),
            KeyCode::Char('q') => Some(HomeAction::Quit),
            _ => None,
        }
    }
}

/// Enter on a home menu entry opens the screen that the entry names: the
/// entries labelled UART, JTAG, SWD, I2C and SPI open the UART, JTAG, SWD,
/// I2C and SPI pages, and "Quit" quits. So different entries lead to
/// different places.
pub proof fn law_enter_opens_named_screen(i: usize, j: usize)
    requires
        i < MENU_ITEM_COUNT,
        j < MENU_ITEM_COUNT,
    ensures
        (menu_items()[i as int] == "UART"@) == (home_step(i, KeyCode::Enter).1 == Some(
            HomeAction::Navigate(Screen::Uart),
        )),
        (menu_items()[i as int] == "JTAG"@) == (home_step(i, KeyCode::Enter).1 == Some(
            HomeAction::Navigate(Screen::Jtag),
        )),
        (menu_items()[i as int] == "SWD"@) == (home_step(i, KeyCode::Enter).1 == Some(
            HomeAction::Navigate(Screen::Swd),
        )),
        (menu_items()[i as int] == "I2C"@) == (home_step(i, KeyCode::Enter).1 == Some(
            HomeAction::Navigate(Screen::I2c),
        )),
        (menu_items()[i as int] == "SPI"@) == (home_step(i, KeyCode::Enter).1 == Some(
            HomeAction::Navigate(Screen::Spi),
        )),
        (menu_items()[i as int] == "Quit"@) == (home_step(i, KeyCode::Enter).1 == Some(HomeAction::Quit)),
        home_step(i, KeyCode::Enter).0 == i,
        i != j ==> home_step(i, KeyCode::Enter).1 != home_step(j, KeyCode::Enter).1,
{
    reveal_strlit("UART");
    reveal_strlit("JTAG");
    reveal_strlit("SWD");
    reveal_strlit("I2C");
    reveal_strlit("SPI");
    reveal_strlit("Quit");
    assert("UART"@[0] == 'U');
    assert("JTAG"@[0] == 'J');
    assert("SWD"@[0] == 'S' && "SWD"@[1] == 'W');
    assert("I2C"@[0] == 'I');
    assert("SPI"@[0] == 'S' && "SPI"@[1] == 'P');
    assert("Quit"@[0] == 'Q');
}

/// Up undoes Down on the home menu and Down undoes Up, for any selection
/// inside the menu.
pub proof fn law_home_up_undoes_down(s: usize)
    requires
        s < MENU_ITEM_COUNT,
    ensures
        ({
            let down = ((s + 1) % (MENU_ITEM_COUNT as int)) as usize;
            let up_after_down = if down == 0 { (MENU_ITEM_COUNT - 1) as usize } else { (down - 1) as usize };
            up_after_down == s
        }),
        ({
            let up = if s == 0 { (MENU_ITEM_COUNT - 1) as usize } else { (s - 1) as usize };
            ((up + 1) % (MENU_ITEM_COUNT as int)) as usize == s
        }),
{
}

} // verus!

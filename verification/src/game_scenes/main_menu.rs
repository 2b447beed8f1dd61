//! The menu: the screens that lead from the title to a match.

use vstd::prelude::*;
use crate::game_scenes::{GameLoop, GameMode};
use crate::ui_system::{Button, Mouse, Text, TextField};

pub mod connect_screen;
pub mod device_screen;
pub mod multiplayer_screen;
pub mod title_screen;

verus! {

/// The screens of the menu.
#[derive(Clone, Copy, Debug, PartialEq, Eq, Structural)]
pub enum MenuScreen {
    TitleScreen,
    DeviceScreen,
    ConnectScreen,
    MultiplayerScreen,
}

/// The first screen: a match for one, a match for two, or quit.
pub struct TitleScreen {
    pub title_txt: Text,
    pub hiscore_txt: Text,
    pub selected_mode: GameMode,
    pub singleplayer_btn: Button,
    pub multiplayer_btn: Button,
    pub quit_btn: Button,
    pub is_active: bool,
    pub next_screen: MenuScreen,
}

/// The choice between a match for two at one machine and one over the
/// network.
pub struct MultiplayerScreen {
    pub local_multiplayer: Button,
    pub online_multiplayer: Button,
    pub is_active: bool,
    pub next_screen: MenuScreen,
}

/// The choice of a device for each player.
pub struct DeviceScreen {
    pub title_txt: Text,
    pub device_1_txt: Text,
    pub device_2_txt: Text,
    /// The number of each player's device among those found, or -1 for
    /// none yet.
    pub selected_devices: Vec<i32>,
    /// The buttons to the device before and to the device after.
    pub device_1_btns: Vec<Button>,
    pub device_2_btns: Vec<Button>,
    pub start_btn: Button,
    pub is_active: bool,
    pub selected_gamemode: GameMode,
}

/// The choice of a player, a device and the address of the peer.
pub struct ConnectScreen {
    pub title_txt: Text,
    pub connect_btn: Button,
    pub player_id: i32,
    pub player_txt: Text,
    pub player_names: Vec<String>,
    pub player_colors: Vec<crate::shapes::Color>,
    pub device_id: i32,
    pub device_txt: Text,
    pub device_btns: Vec<Button>,
    pub player_btns: Vec<Button>,
    pub remote_ip_txt: Text,
    pub remote_ip_field: TextField,
    pub remote_info_txt: Text,
    pub connection_status_txt: Text,
    pub is_active: bool,
}

/// A screen of the menu, whichever it is.
pub enum Screen {
    Title(TitleScreen),
    Multiplayer(MultiplayerScreen),
    Device(DeviceScreen),
    Connect(ConnectScreen),
}

/// The menu: the screen that it shows, and whether it is still shown
/// itself.
pub struct MainMenu {
    pub current_screen: Screen,
    pub is_active: bool,
}

/// What the menu asks of its caller after an update.
#[derive(Clone, Copy, Debug, PartialEq, Eq, Structural)]
pub enum MenuRequest {
    /// Nothing.
    Stay,
    /// To build the named screen, for the named mode, and to show it.
    Show(MenuScreen, GameMode),
    /// To start the match.
    Start,
    /// To quit.
    Quit,
}

/// The number of the device `step` after `current` among `amount`
/// devices, the last following the first and the first the last.
pub open spec fn stepped_choice(current: i32, step: i32, amount: i32) -> i32 {
    if current + step < 0 {
        (amount - 1) as i32
    } else if current + step >= amount {
        0
    } else {
        (current + step) as i32
    }
}

pub fn step_choice(current: i32, step: i32, amount: i32) -> (choice: i32)
    requires
        -1 <= step <= 1,
        -1 <= current < i32::MAX,
        amount >= 1,
    ensures
        choice == stepped_choice(current, step, amount),
        0 <= choice < amount,
        step != 0 && amount >= 2 && current < amount ==> choice != current,
{
    let mut new_id: i32 = current + step;
    if new_id < 0 {
        new_id = amount - 1;
    }
    if new_id >= amount {
        new_id = 0;
    }
    new_id
}

impl Screen {
    /// Whether the screen is as its own rules leave it: a screen that has
    /// ended names a screen that can follow it, and the screen of the
    /// connection, which nothing follows, has not ended.
    pub open spec fn wf_spec(&self) -> bool {
        match *self {
            Screen::Title(screen) => screen.is_active || screen.next_screen
                == MenuScreen::DeviceScreen || screen.next_screen == MenuScreen::MultiplayerScreen,
            Screen::Multiplayer(screen) => screen.is_active || screen.next_screen
                == MenuScreen::DeviceScreen || screen.next_screen == MenuScreen::ConnectScreen,
            Screen::Device(screen) => screen.wf(),
            Screen::Connect(screen) => screen.wf(),
        }
    }

    /// Whether the screen is as its own rules leave it.
    #[verifier::when_used_as_spec(wf_spec)]
    pub fn wf(&self) -> (sound: bool)
        ensures
            sound == self.wf_spec(),
    {
        match self {
            Screen::Title(screen) => screen.is_active || screen.next_screen
                == MenuScreen::DeviceScreen || screen.next_screen == MenuScreen::MultiplayerScreen,
            Screen::Multiplayer(screen) => screen.is_active || screen.next_screen
                == MenuScreen::DeviceScreen || screen.next_screen == MenuScreen::ConnectScreen,
            Screen::Device(screen) => screen.wf(),
            Screen::Connect(screen) => screen.wf(),
        }
    }

    pub open spec fn active(self) -> bool {
        match self {
            Screen::Title(screen) => screen.is_active,
            Screen::Multiplayer(screen) => screen.is_active,
            Screen::Device(screen) => screen.is_active,
            Screen::Connect(screen) => screen.is_active,
        }
    }

    pub fn is_active(&self) -> (active: bool)
        ensures
            active == self.active(),
    {
        match self {
            Screen::Title(screen) => screen.is_active(),
            Screen::Multiplayer(screen) => screen.is_active(),
            Screen::Device(screen) => screen.is_active(),
            Screen::Connect(screen) => screen.is_active(),
        }
    }

    /// Whether a match follows the screen, and no other screen.
    pub fn goes_to_scene(&self) -> (goes: bool)
        ensures
            goes == (self is Device),
    {
        match self {
            Screen::Title(screen) => screen.goes_to_scene(),
            Screen::Multiplayer(screen) => screen.goes_to_scene(),
            Screen::Device(screen) => screen.goes_to_scene(),
            Screen::Connect(screen) => screen.goes_to_scene(),
        }
    }
}

impl MainMenu {
    /// The menu at its title screen.
    pub fn new(title: TitleScreen) -> (menu: MainMenu)
        ensures
            menu.current_screen == Screen::Title(title),
            menu.is_active,
    {
        MainMenu { current_screen: Screen::Title(title), is_active: true }
    }

    pub fn is_active(&self) -> (active: bool)
        ensures
            active == self.is_active,
    {
        self.is_active
    }

    /// Shows another screen.
    pub fn show(&mut self, screen: Screen)
        ensures
            final(self).current_screen == screen,
            final(self).is_active == old(self).is_active,
    {
        self.current_screen = screen;
    }

    /// What the menu asks of its caller where its screen has ended: to
    /// start the match after the screen of the devices, else to show the
    /// screen that follows.
    pub open spec fn request_after(self) -> MenuRequest {
        match self.current_screen {
            Screen::Title(screen) => MenuRequest::Show(screen.next_screen, screen.selected_mode),
            Screen::Multiplayer(screen) => MenuRequest::Show(
                screen.next_screen,
                GameMode::Multiplayer,
            ),
            Screen::Device(_) => MenuRequest::Start,
            Screen::Connect(_) => MenuRequest::Stay,
        }
    }

    /// Whether the menu can be updated with a mouse and a reading of the
    /// gamepads: its screen is sound, and where the screen is still shown
    /// and the mouse moves a choice of device on it, so that the devices are
    /// looked up, the gamepads that are there come first.
    pub open spec fn can_take(self, mouse: Mouse, available: Seq<bool>) -> bool {
        &&& self.current_screen.wf()
        &&& self.current_screen matches Screen::Device(screen) ==> !screen.is_active
            || screen.can_take(mouse, available)
        &&& self.current_screen matches Screen::Connect(screen) ==> screen.can_take(
            mouse,
            available,
        )
    }

    /// Whether the menu can be updated with a mouse and a reading of the
    /// gamepads.
    pub fn can_update(&self, mouse: Mouse, available: &[bool; 4]) -> (ready: bool)
        ensures
            ready == self.can_take(mouse, available@),
    {
        match &self.current_screen {
            Screen::Device(screen) => screen.wf() && (!screen.is_active || screen.can_update(
                mouse,
                available,
            )),
            Screen::Connect(screen) => screen.can_update(mouse, available),
            _ => self.current_screen.wf(),
        }
    }

    /// Takes one frame of the mouse, the key that was pressed, 0 standing
    /// for none, and the gamepads that are there.
    ///
    /// Where the screen has ended, the screen stays as it is: after the
    /// screen of the devices the menu ends itself and asks for the match to
    /// start; after another screen it asks for the screen that follows. Else
    /// the screen is updated, and the menu asks to quit where the title
    /// screen says so.
    pub fn update(&mut self, mouse: Mouse, key: u8, available: &[bool; 4]) -> (request:
        MenuRequest)
        requires
            old(self).can_take(mouse, available@),
        ensures
            final(self).current_screen.wf(),
            !old(self).current_screen.active() ==> {
                &&& request == old(self).request_after()
                &&& final(self).current_screen == old(self).current_screen
                &&& final(self).is_active == (old(self).is_active && !(old(
                    self,
                ).current_screen is Device))
            },
            old(self).current_screen.active() ==> {
                &&& final(self).is_active == old(self).is_active
                &&& request == MenuRequest::Stay || request == MenuRequest::Quit
                &&& old(self).current_screen matches Screen::Title(screen) ==> {
                    &&& final(self).current_screen == Screen::Title(screen.after_update(mouse))
                    &&& (request == MenuRequest::Quit) == screen.quits(mouse)
                }
                &&& old(self).current_screen matches Screen::Multiplayer(screen) ==> {
                    &&& final(self).current_screen == Screen::Multiplayer(
                        screen.after_update(mouse),
                    )
                    &&& request == MenuRequest::Stay
                }
                &&& old(self).current_screen matches Screen::Device(screen) ==> {
                    &&& final(self).current_screen matches Screen::Device(after)
                    &&& screen.updates_to(after, mouse, available@)
                    &&& request == MenuRequest::Stay
                }
                &&& old(self).current_screen matches Screen::Connect(screen) ==> {
                    &&& final(self).current_screen matches Screen::Connect(after)
                    &&& screen.updates_to(after, mouse, key, available@)
                    &&& request == MenuRequest::Stay
                }
            },
    {
        if !self.current_screen.is_active() {
            if self.current_screen.goes_to_scene() {
                self.is_active = false;
                return MenuRequest::Start;
            }
            return match &self.current_screen {
                Screen::Title(screen) => {
                    let next: (MenuScreen, GameMode) = screen.get_next_screen();
                    MenuRequest::Show(next.0, next.1)
                },
                Screen::Multiplayer(screen) => {
                    let next: (MenuScreen, GameMode) = screen.get_next_screen();
                    MenuRequest::Show(next.0, next.1)
                },
                Screen::Device(_) => MenuRequest::Start,
                Screen::Connect(_) => MenuRequest::Stay,
            };
        }
        match &mut self.current_screen {
            Screen::Title(screen) => {
                if screen.update(mouse) {
                    MenuRequest::Quit
                } else {
                    MenuRequest::Stay
                }
            },
            Screen::Multiplayer(screen) => {
                screen.update(mouse);
                MenuRequest::Stay
            },
            Screen::Device(screen) => {
                screen.update(mouse, available);
                MenuRequest::Stay
            },
            Screen::Connect(screen) => {
                screen.update(mouse, key, available);
                MenuRequest::Stay
            },
        }
    }

    /// The match that the menu leads to, with the given high score.
    pub fn get_next_scene(&self, hiscore: i32) -> (game: Option<GameLoop>)
        requires
            self.current_screen.wf(),
        ensures
            game is Some <==> (self.current_screen matches Screen::Device(screen)
                && screen.selected_gamemode != GameMode::Unselected),
            game matches Some(g) ==> g.inv() && g.score == 0 && g.hiscore == hiscore,
    {
        match &self.current_screen {
            Screen::Device(screen) => {
                if screen.selected_gamemode == GameMode::Unselected {
                    None
                } else {
                    Some(screen.get_next_scene(hiscore))
                }
            },
            _ => None,
        }
    }
}

} // verus!

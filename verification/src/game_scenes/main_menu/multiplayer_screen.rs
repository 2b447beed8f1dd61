use vstd::prelude::*;
use crate::game_scenes::main_menu::{MenuScreen, MultiplayerScreen};
use crate::game_scenes::GameMode;
use crate::shapes::Vector2;
use crate::ui_system::{Button, Mouse, ScreenElements, Text, TextField};

verus! {

impl MultiplayerScreen {
    pub fn new(local_multiplayer: Button, online_multiplayer: Button) -> (screen: MultiplayerScreen)
        ensures
            screen == (MultiplayerScreen {
                local_multiplayer,
                online_multiplayer,
                is_active: true,
                next_screen: MenuScreen::DeviceScreen,
            }),
    {
        MultiplayerScreen {
            local_multiplayer,
            online_multiplayer,
            next_screen: MenuScreen::DeviceScreen,
            is_active: true,
        }
    }

    /// The screen after the mouse has been looked at: the button for the
    /// network leads on to the connection, else the button for one machine
    /// to the devices; else the screen stays.
    pub open spec fn after_update(self, mouse: Mouse) -> MultiplayerScreen {
        if self.online_multiplayer.pressed_by(mouse) {
            MultiplayerScreen { is_active: false, next_screen: MenuScreen::ConnectScreen, ..self }
        } else if self.local_multiplayer.pressed_by(mouse) {
            MultiplayerScreen { is_active: false, next_screen: MenuScreen::DeviceScreen, ..self }
        } else {
            self
        }
    }

    pub fn update(&mut self, mouse: Mouse)
        ensures
            *final(self) == old(self).after_update(mouse),
    {
        if self.local_multiplayer.is_pressed(mouse) {
            self.is_active = false;
            self.next_screen = MenuScreen::DeviceScreen;
        }
        if self.online_multiplayer.is_pressed(mouse) {
            self.is_active = false;
            self.next_screen = MenuScreen::ConnectScreen;
        }
    }

    /// The screen that follows, which is that of the devices or that of
    /// the connection, in the mode for two.
    pub fn get_next_screen(&self) -> (next: (MenuScreen, GameMode))
        requires
            self.next_screen == MenuScreen::DeviceScreen || self.next_screen
                == MenuScreen::ConnectScreen,
        ensures
            next == (self.next_screen, GameMode::Multiplayer),
    {
        (self.next_screen, GameMode::Multiplayer)
    }

    pub fn get_elements(&self, position: Vector2) -> (elements: ScreenElements)
        ensures
            elements.texts@ == Seq::<Text>::empty(),
            elements.fields@ == Seq::<TextField>::empty(),
            elements.buttons@ == seq![
                (self.local_multiplayer, self.local_multiplayer.color_at(position)),
                (self.online_multiplayer, self.online_multiplayer.color_at(position)),
            ],
    {
        let mut buttons: Vec<Button> = Vec::new();
        buttons.push(self.local_multiplayer.duplicate());
        buttons.push(self.online_multiplayer.duplicate());
        let elements: ScreenElements = ScreenElements::new(
            Vec::new(),
            buttons,
            Vec::new(),
            position,
        );
        assert(elements.buttons@ =~= seq![
            (self.local_multiplayer, self.local_multiplayer.color_at(position)),
            (self.online_multiplayer, self.online_multiplayer.color_at(position)),
        ]);
        elements
    }

    pub fn goes_to_scene(&self) -> (goes: bool)
        ensures
            !goes,
    {
        false
    }

    pub fn is_active(&self) -> (active: bool)
        ensures
            active == self.is_active,
    {
        self.is_active
    }
}

} // verus!

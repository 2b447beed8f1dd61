use vstd::prelude::*;
use crate::game_scenes::main_menu::{MenuScreen, TitleScreen};
use crate::game_scenes::GameMode;
use crate::shapes::Vector2;
use crate::ui_system::{Button, Mouse, ScreenElements, Text, TextField};

verus! {

impl TitleScreen {
    /// The title screen with its texts and buttons, no mode chosen yet.
    pub fn new(
        title_txt: Text,
        hiscore_txt: Text,
        singleplayer_btn: Button,
        multiplayer_btn: Button,
        quit_btn: Button,
    ) -> (screen: TitleScreen)
        ensures
            screen == (TitleScreen {
                title_txt,
                hiscore_txt,
                selected_mode: GameMode::Unselected,
                singleplayer_btn,
                multiplayer_btn,
                quit_btn,
                is_active: true,
                next_screen: MenuScreen::TitleScreen,
            }),
    {
        TitleScreen {
            title_txt,
            hiscore_txt,
            singleplayer_btn,
            multiplayer_btn,
            quit_btn,
            is_active: true,
            selected_mode: GameMode::Unselected,
            next_screen: MenuScreen::TitleScreen,
        }
    }

    /// The screen after the mouse has been looked at: the button for one
    /// player leads on to the devices in the mode for one, that for two to
    /// the screen for two in the mode for two, the first of them that is
    /// pressed; else the screen stays.
    pub open spec fn after_update(self, mouse: Mouse) -> TitleScreen {
        if self.singleplayer_btn.pressed_by(mouse) {
            TitleScreen {
                selected_mode: GameMode::Singleplayer,
                next_screen: MenuScreen::DeviceScreen,
                is_active: false,
                ..self
            }
        } else if self.multiplayer_btn.pressed_by(mouse) {
            TitleScreen {
                selected_mode: GameMode::Multiplayer,
                next_screen: MenuScreen::MultiplayerScreen,
                is_active: false,
                ..self
            }
        } else {
            self
        }
    }

    /// Whether the mouse asks to quit: it presses the quit button and
    /// neither of the others.
    pub open spec fn quits(self, mouse: Mouse) -> bool {
        &&& !self.singleplayer_btn.pressed_by(mouse)
        &&& !self.multiplayer_btn.pressed_by(mouse)
        &&& self.quit_btn.pressed_by(mouse)
    }

    /// Looks at the mouse. Returns whether it asks to quit.
    pub fn update(&mut self, mouse: Mouse) -> (quit: bool)
        ensures
            *final(self) == old(self).after_update(mouse),
            quit == old(self).quits(mouse),
    {
        if self.singleplayer_btn.is_pressed(mouse) {
            self.selected_mode = GameMode::Singleplayer;
            self.next_screen = MenuScreen::DeviceScreen;
            self.is_active = false;
            return false;
        }
        if self.multiplayer_btn.is_pressed(mouse) {
            self.selected_mode = GameMode::Multiplayer;
            self.next_screen = MenuScreen::MultiplayerScreen;
            self.is_active = false;
            return false;
        }
        self.quit_btn.is_pressed(mouse)
    }

    /// The screen that follows, which is that of the devices or that for
    /// two players, with the mode that was chosen.
    pub fn get_next_screen(&self) -> (next: (MenuScreen, GameMode))
        requires
            self.next_screen == MenuScreen::DeviceScreen || self.next_screen
                == MenuScreen::MultiplayerScreen,
        ensures
            next == (self.next_screen, self.selected_mode),
    {
        (self.next_screen, self.selected_mode)
    }

    pub fn get_elements(&self, position: Vector2) -> (elements: ScreenElements)
        ensures
            elements.texts@ == seq![self.title_txt, self.hiscore_txt],
            elements.fields@ == Seq::<TextField>::empty(),
            elements.buttons@ == seq![
                (self.singleplayer_btn, self.singleplayer_btn.color_at(position)),
                (self.multiplayer_btn, self.multiplayer_btn.color_at(position)),
                (self.quit_btn, self.quit_btn.color_at(position)),
            ],
    {
        let mut texts: Vec<Text> = Vec::new();
        texts.push(self.title_txt.duplicate());
        texts.push(self.hiscore_txt.duplicate());
        let mut buttons: Vec<Button> = Vec::new();
        buttons.push(self.singleplayer_btn.duplicate());
        buttons.push(self.multiplayer_btn.duplicate());
        buttons.push(self.quit_btn.duplicate());
        let elements: ScreenElements = ScreenElements::new(texts, buttons, Vec::new(), position);
        assert(elements.texts@ =~= seq![self.title_txt, self.hiscore_txt]);
        assert(elements.buttons@ =~= seq![
            (self.singleplayer_btn, self.singleplayer_btn.color_at(position)),
            (self.multiplayer_btn, self.multiplayer_btn.color_at(position)),
            (self.quit_btn, self.quit_btn.color_at(position)),
        ]);
        elements
    }

    pub fn goes_to_scene(&self) -> (goes: bool)
        ensures
            !goes,
    {
        false
    }

    pub fn is_active(&self) -> (active: bool)
        ensures
            active == self.is_active,
    {
        self.is_active
    }
}

} // verus!

use vstd::prelude::*;
use crate::game_scenes::main_menu::{step_choice, stepped_choice, DeviceScreen};
use crate::game_scenes::{GameLoop, GameMode};
use crate::input_system::InputDevice;
use crate::shapes::Vector2;
use crate::ui_system::{Button, Mouse, ScreenElements, Text, TextField};
use crate::utils::{device_numbered, devices_found, without_gap, InputUtils};

verus! {

impl DeviceScreen {
    /// Whether the screen has a choice for each of two players, each a
    /// device that could be found or none, and its four buttons.
    pub open spec fn wf_spec(&self) -> bool {
        &&& self.selected_devices.len() == 2
        &&& -1 <= self.selected_devices[0] < 6
        &&& -1 <= self.selected_devices[1] < 6
        &&& self.device_1_btns.len() == 2
        &&& self.device_2_btns.len() == 2
    }

    /// Whether the screen has a choice for each of two players, each a
    /// device that could be found or none, and its four buttons.
    #[verifier::when_used_as_spec(wf_spec)]
    pub fn wf(&self) -> (sound: bool)
        ensures
            sound == self.wf_spec(),
    {
        self.selected_devices.len() == 2 && -1 <= self.selected_devices[0]
            && self.selected_devices[0] < 6 && -1 <= self.selected_devices[1]
            && self.selected_devices[1] < 6 && self.device_1_btns.len() == 2
            && self.device_2_btns.len() == 2
    }

    /// The screen for a mode, with nothing chosen yet.
    pub fn new(
        mode: GameMode,
        title_txt: Text,
        device_1_txt: Text,
        device_2_txt: Text,
        device_1_btns: Vec<Button>,
        device_2_btns: Vec<Button>,
        start_btn: Button,
    ) -> (screen: DeviceScreen)
        requires
            device_1_btns.len() == 2,
            device_2_btns.len() == 2,
        ensures
            screen.wf(),
            screen.selected_devices@ == seq![-1i32, -1i32],
            screen.is_active,
            screen.selected_gamemode == mode,
            screen.title_txt == title_txt,
            screen.device_1_txt == device_1_txt,
            screen.device_2_txt == device_2_txt,
            screen.device_1_btns == device_1_btns,
            screen.device_2_btns == device_2_btns,
            screen.start_btn == start_btn,
    {
        let mut selected_devices: Vec<i32> = Vec::new();
        selected_devices.push(-1);
        selected_devices.push(-1);
        DeviceScreen {
            title_txt,
            device_1_txt,
            device_2_txt,
            device_1_btns,
            device_2_btns,
            selected_devices,
            start_btn,
            is_active: true,
            selected_gamemode: mode,
        }
    }

    /// Whether the match can start: in the mode for one the first player
    /// has a device, in every other mode both have.
    pub open spec fn can_start(self) -> bool {
        if self.selected_gamemode == GameMode::Singleplayer {
            self.selected_devices[0] >= 0
        } else {
            self.selected_devices[0] >= 0 && self.selected_devices[1] >= 0
        }
    }

    pub fn update_start_btn(&mut self)
        requires
            old(self).wf(),
        ensures
            *final(self) == (DeviceScreen {
                start_btn: Button { enabled: old(self).can_start(), ..old(self).start_btn },
                ..*old(self)
            }),
    {
        if self.selected_gamemode == GameMode::Singleplayer {
            self.start_btn.enabled = self.selected_devices[0] >= 0;
        } else {
            self.start_btn.enabled = self.selected_devices[0] >= 0 && self.selected_devices[1] >= 0;
        }
    }

    /// The choices of the two players.
    pub open spec fn choices(self) -> (i32, i32) {
        (self.selected_devices[0], self.selected_devices[1])
    }

    /// The two choices after one player has gone a step on or back among
    /// `amount` devices: that player's choice moves, and where it meets the
    /// other player's, the other player's moves the other way.
    pub open spec fn moved_choices(choices: (i32, i32), player_id: int, step: i32, amount: i32) -> (
        i32,
        i32,
    ) {
        let own = if player_id == 0 {
            choices.0
        } else {
            choices.1
        };
        let others = if player_id == 0 {
            choices.1
        } else {
            choices.0
        };
        let moved = stepped_choice(own, step, amount);
        let given_way = if moved == others {
            stepped_choice(others, (-step) as i32, amount)
        } else {
            others
        };
        if player_id == 0 {
            (moved, given_way)
        } else {
            (given_way, moved)
        }
    }

    /// What the screen shows of the choices: the two choices and the words
    /// of the two texts that name them.
    pub open spec fn shown(self) -> (i32, i32, Seq<char>, Seq<char>) {
        (
            self.selected_devices[0],
            self.selected_devices[1],
            self.device_1_txt.text@,
            self.device_2_txt.text@,
        )
    }

    /// What the screen shows after one player has gone a step on or back
    /// among the devices found: the choices move as `moved_choices` says,
    /// and the text of each player whose choice was set names the device
    /// that is now chosen.
    pub open spec fn moved_shown(
        shown: (i32, i32, Seq<char>, Seq<char>),
        player_id: int,
        step: i32,
        devices: Seq<InputDevice>,
    ) -> (i32, i32, Seq<char>, Seq<char>) {
        let amount = devices.len() as i32;
        let own = if player_id == 0 {
            shown.0
        } else {
            shown.1
        };
        let others = if player_id == 0 {
            shown.1
        } else {
            shown.0
        };
        let gave_way = stepped_choice(own, step, amount) == others;
        let (first, second) = DeviceScreen::moved_choices(
            (shown.0, shown.1),
            player_id,
            step,
            amount,
        );
        (
            first,
            second,
            if player_id == 0 || gave_way {
                devices[first as int].name()
            } else {
                shown.2
            },
            if player_id == 1 || gave_way {
                devices[second as int].name()
            } else {
                shown.3
            },
        )
    }

    /// Whether `after` differs from the screen in nothing but the choices,
    /// the words of the two texts that name them, whether the start button
    /// is enabled, and whether the screen is still shown.
    pub open spec fn same_but_choices(self, after: DeviceScreen) -> bool {
        after == (DeviceScreen {
            selected_devices: after.selected_devices,
            device_1_txt: Text { text: after.device_1_txt.text, ..self.device_1_txt },
            device_2_txt: Text { text: after.device_2_txt.text, ..self.device_2_txt },
            start_btn: Button { enabled: after.start_btn.enabled, ..self.start_btn },
            is_active: after.is_active,
            ..self
        })
    }

    /// Moves the choice of a player one device on or back among those
    /// found, given which gamepads are there. The two players never hold
    /// the same device afterwards. The text of each player whose choice was
    /// set names the new device; it is not yet put back round its middle.
    pub fn change_device(&mut self, available: &[bool; 4], player_id: usize, step: i32)
        requires
            old(self).wf(),
            player_id < 2,
            step == 1 || step == -1,
            without_gap(available@),
        ensures
            final(self).wf(),
            player_id == 0 ==> final(self).device_1_txt.text@ == device_numbered(
                final(self).selected_devices[0],
            ).name(),
            player_id == 1 ==> final(self).device_2_txt.text@ == device_numbered(
                final(self).selected_devices[1],
            ).name(),
            final(self).shown() == DeviceScreen::moved_shown(
                old(self).shown(),
                player_id as int,
                step,
                devices_found(available@, 4),
            ),
            old(self).same_but_choices(*final(self)),
            final(self).start_btn == old(self).start_btn,
            final(self).is_active == old(self).is_active,
            final(self).selected_devices[0] != final(self).selected_devices[1],
            0 <= final(self).selected_devices[player_id as int] < devices_found(
                available@,
                4,
            ).len(),
    {
        let connected_devices: Vec<InputDevice> = InputUtils::get_connected_devices(available);
        let devices_amount: i32 = connected_devices.len() as i32;
        let other_player: usize = 1 - player_id;
        let current: i32 = self.selected_devices[player_id];
        let new_id: i32 = step_choice(current, step, devices_amount);
        self.selected_devices.set(player_id, new_id);
        if new_id == self.selected_devices[other_player] {
            let given_way: i32 = step_choice(new_id, -step, devices_amount);
            self.selected_devices.set(other_player, given_way);
            let name: String = connected_devices[given_way as usize].get_name();
            if other_player == 0 {
                self.device_1_txt.text = name;
            } else {
                self.device_2_txt.text = name;
            }
        }
        let name: String = connected_devices[new_id as usize].get_name();
        if player_id == 0 {
            self.device_1_txt.text = name;
        } else {
            self.device_2_txt.text = name;
        }
    }

    /// What the screen shows after the mouse has been looked at, with the
    /// given devices found: first the buttons of the first player move a
    /// choice, the one to the device before or else the one to the device
    /// after, then those of the second player.
    pub open spec fn shown_after_update(self, mouse: Mouse, devices: Seq<InputDevice>) -> (
        i32,
        i32,
        Seq<char>,
        Seq<char>,
    ) {
        let first = if self.device_1_btns[0].pressed_by(mouse) {
            DeviceScreen::moved_shown(self.shown(), 0, -1i32, devices)
        } else if self.device_1_btns[1].pressed_by(mouse) {
            DeviceScreen::moved_shown(self.shown(), 0, 1, devices)
        } else {
            self.shown()
        };
        if self.device_2_btns[0].pressed_by(mouse) {
            DeviceScreen::moved_shown(first, 1, -1i32, devices)
        } else if self.device_2_btns[1].pressed_by(mouse) {
            DeviceScreen::moved_shown(first, 1, 1, devices)
        } else {
            first
        }
    }

    /// Whether the mouse presses one of the buttons that move a choice.
    pub open spec fn moves_a_choice(self, mouse: Mouse) -> bool {
        ||| self.device_1_btns[0].pressed_by(mouse)
        ||| self.device_1_btns[1].pressed_by(mouse)
        ||| self.device_2_btns[0].pressed_by(mouse)
        ||| self.device_2_btns[1].pressed_by(mouse)
    }

    /// Whether `after` is the screen after the mouse has been looked at,
    /// given which gamepads are there: the start button ends the screen,
    /// the buttons of each player move that player's choice, the start
    /// button is enabled as the new choices allow, and nothing else has
    /// changed.
    pub open spec fn updates_to(self, after: DeviceScreen, mouse: Mouse, available: Seq<bool>) -> bool {
        &&& after.wf()
        &&& self.same_but_choices(after)
        &&& after.is_active == (self.is_active && !self.start_btn.pressed_by(mouse))
        &&& after.shown() == self.shown_after_update(mouse, devices_found(available, 4))
        &&& after.start_btn.enabled == after.can_start()
        &&& self.moves_a_choice(mouse) ==> after.selected_devices[0] != after.selected_devices[1]
        &&& !self.moves_a_choice(mouse) ==> after.selected_devices == self.selected_devices
    }

    /// Whether the screen can be updated with a mouse and a reading of the
    /// gamepads: it is sound, and where the mouse moves a choice, so that
    /// the devices are looked up, the gamepads that are there come first.
    pub open spec fn can_take(self, mouse: Mouse, available: Seq<bool>) -> bool {
        self.wf() && (self.moves_a_choice(mouse) ==> without_gap(available))
    }

    /// Whether the screen can be updated with a mouse and a reading of the
    /// gamepads.
    pub fn can_update(&self, mouse: Mouse, available: &[bool; 4]) -> (ready: bool)
        ensures
            ready == self.can_take(mouse, available@),
    {
        if !self.wf() {
            return false;
        }
        let moves: bool = self.device_1_btns[0].is_pressed(mouse)
            || self.device_1_btns[1].is_pressed(mouse) || self.device_2_btns[0].is_pressed(mouse)
            || self.device_2_btns[1].is_pressed(mouse);
        !moves || InputUtils::has_no_gap(available)
    }

    /// Looks at the mouse: the start button ends the screen, the buttons
    /// of each player move that player's choice, and the start button is
    /// enabled as the choices allow. Returns whether a choice moved, so that
    /// the texts of the devices have to be put back round their middles.
    pub fn update(&mut self, mouse: Mouse, available: &[bool; 4]) -> (moved: bool)
        requires
            old(self).can_take(mouse, available@),
        ensures
            old(self).updates_to(*final(self), mouse, available@),
            moved == old(self).moves_a_choice(mouse),
    {
        if self.start_btn.is_pressed(mouse) {
            self.is_active = false;
        }
        let mut moved: bool = false;
        if self.device_1_btns[0].is_pressed(mouse) {
            self.change_device(available, 0, -1);
            moved = true;
        } else if self.device_1_btns[1].is_pressed(mouse) {
            self.change_device(available, 0, 1);
            moved = true;
        }
        if self.device_2_btns[0].is_pressed(mouse) {
            self.change_device(available, 1, -1);
            moved = true;
        } else if self.device_2_btns[1].is_pressed(mouse) {
            self.change_device(available, 1, 1);
            moved = true;
        }
        self.update_start_btn();
        moved
    }

    /// The match that the screen leads to, with the devices that were
    /// chosen and the given high score.
    pub fn get_next_scene(&self, hiscore: i32) -> (game: GameLoop)
        requires
            self.wf(),
            self.selected_gamemode != GameMode::Unselected,
        ensures
            game.inv(),
            game.score == 0,
            game.hiscore == hiscore,
            game.game_mode == self.selected_gamemode,
            game.ball_input.device == device_numbered(self.selected_devices[0]),
            game.paddle_input.device == device_numbered(self.selected_devices[1]),
    {
        let devices: (InputDevice, InputDevice) = (
            InputUtils::get_device_by_id(self.selected_devices[0]),
            InputUtils::get_device_by_id(self.selected_devices[1]),
        );
        GameLoop::new(self.selected_gamemode, devices, hiscore)
    }

    pub fn get_elements(&self, position: Vector2) -> (elements: ScreenElements)
        requires
            self.wf(),
        ensures
            elements.texts@ == seq![self.title_txt, self.device_1_txt, self.device_2_txt],
            elements.fields@ == Seq::<TextField>::empty(),
            elements.buttons@ == seq![
                (self.start_btn, self.start_btn.color_at(position)),
                (self.device_1_btns[0], self.device_1_btns[0].color_at(position)),
                (self.device_1_btns[1], self.device_1_btns[1].color_at(position)),
                (self.device_2_btns[0], self.device_2_btns[0].color_at(position)),
                (self.device_2_btns[1], self.device_2_btns[1].color_at(position)),
            ],
    {
        let mut texts: Vec<Text> = Vec::new();
        texts.push(self.title_txt.duplicate());
        texts.push(self.device_1_txt.duplicate());
        texts.push(self.device_2_txt.duplicate());
        let mut buttons: Vec<Button> = Vec::new();
        buttons.push(self.start_btn.duplicate());
        buttons.push(self.device_1_btns[0].duplicate());
        buttons.push(self.device_1_btns[1].duplicate());
        buttons.push(self.device_2_btns[0].duplicate());
        buttons.push(self.device_2_btns[1].duplicate());
        let elements: ScreenElements = ScreenElements::new(texts, buttons, Vec::new(), position);
        assert(elements.texts@ =~= seq![self.title_txt, self.device_1_txt, self.device_2_txt]);
        assert(elements.buttons@ =~= seq![
            (self.start_btn, self.start_btn.color_at(position)),
            (self.device_1_btns[0], self.device_1_btns[0].color_at(position)),
            (self.device_1_btns[1], self.device_1_btns[1].color_at(position)),
            (self.device_2_btns[0], self.device_2_btns[0].color_at(position)),
            (self.device_2_btns[1], self.device_2_btns[1].color_at(position)),
        ]);
        elements
    }

    pub fn goes_to_scene(&self) -> (goes: bool)
        ensures
            goes,
    {
        true
    }

    pub fn is_active(&self) -> (active: bool)
        ensures
            active == self.is_active,
    {
        self.is_active
    }
}

} // verus!

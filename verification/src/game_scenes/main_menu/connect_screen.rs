use vstd::prelude::*;
use crate::game_scenes::main_menu::{step_choice, stepped_choice, ConnectScreen};
use crate::input_system::InputDevice;
use crate::shapes::{Color, Vector2};
use crate::ui_system::elements::IPV4_PATTERN;
use crate::ui_system::{pattern_match, Button, Mouse, ScreenElements, Text, TextField};
use crate::utils::{device_numbered, devices_found, without_gap, InputUtils};

verus! {

impl ConnectScreen {
    /// Whether the screen has its two players, a choice of player and of
    /// device that is one of those or none, its buttons and its field.
    pub open spec fn wf_spec(&self) -> bool {
        &&& self.player_names.len() == 2
        &&& self.player_colors.len() == 2
        &&& -1 <= self.player_id < 2
        &&& -1 <= self.device_id < 6
        &&& self.device_btns.len() == 2
        &&& self.player_btns.len() == 2
        &&& self.remote_ip_field.wf()
        &&& self.is_active
    }

    /// Whether the screen has its two players, a choice of player and of
    /// device that is one of those or none, its buttons and its field.
    #[verifier::when_used_as_spec(wf_spec)]
    pub fn wf(&self) -> (sound: bool)
        ensures
            sound == self.wf_spec(),
    {
        self.player_names.len() == 2 && self.player_colors.len() == 2 && -1 <= self.player_id
            && self.player_id < 2 && -1 <= self.device_id && self.device_id < 6
            && self.device_btns.len() == 2 && self.player_btns.len() == 2
            && self.remote_ip_field.wf() && self.is_active
    }

    /// The screen with nothing chosen yet.
    pub fn new(
        title_txt: Text,
        connect_btn: Button,
        player_txt: Text,
        device_txt: Text,
        device_btns: Vec<Button>,
        player_btns: Vec<Button>,
        remote_ip_txt: Text,
        remote_ip_field: TextField,
        remote_info_txt: Text,
        connection_status_txt: Text,
    ) -> (screen: ConnectScreen)
        requires
            device_btns.len() == 2,
            player_btns.len() == 2,
            remote_ip_field.wf(),
        ensures
            screen.wf(),
            screen.player_id == -1,
            screen.device_id == -1,
            screen.player_names[0]@ == "Player 1 (Ball)"@,
            screen.player_names[1]@ == "Player 2 (Paddles)"@,
            screen.player_colors@ == seq![
                Color { r: 10, g: 255, b: 255, a: 150 },
                Color { r: 255, g: 40, b: 0, a: 130 },
            ],
            screen.title_txt == title_txt,
            screen.connect_btn == connect_btn,
            screen.player_txt == player_txt,
            screen.device_txt == device_txt,
            screen.device_btns == device_btns,
            screen.player_btns == player_btns,
            screen.remote_ip_txt == remote_ip_txt,
            screen.remote_ip_field == remote_ip_field,
            screen.remote_info_txt == remote_info_txt,
            screen.connection_status_txt == connection_status_txt,
    {
        let mut player_names: Vec<String> = Vec::new();
        player_names.push("Player 1 (Ball)".to_owned());
        player_names.push("Player 2 (Paddles)".to_owned());
        let mut player_colors: Vec<Color> = Vec::new();
        player_colors.push(Color::new(10, 255, 255, 150));
        player_colors.push(Color::new(255, 40, 0, 130));
        ConnectScreen {
            title_txt,
            connect_btn,
            device_id: -1,
            player_id: -1,
            player_names,
            player_colors,
            player_txt,
            device_txt,
            device_btns,
            player_btns,
            remote_ip_txt,
            remote_ip_field,
            is_active: true,
            remote_info_txt,
            connection_status_txt,
        }
    }

    /// Moves the choice of the player one on or back, the second
    /// following the first and the first the second. The text of the player
    /// takes the name and the colour of the new choice; it is not yet put
    /// back round its middle.
    pub fn change_player(&mut self, step: i32)
        requires
            old(self).wf(),
            -1 <= step <= 1,
        ensures
            final(self).wf(),
            final(self).player_id == stepped_choice(old(self).player_id, step, 2),
            final(self).player_txt.text@ == old(self).player_names[final(self).player_id as int]@,
            *final(self) == (ConnectScreen {
                player_id: final(self).player_id,
                player_txt: Text {
                    text: final(self).player_txt.text,
                    color: old(self).player_colors[final(self).player_id as int],
                    ..old(self).player_txt
                },
                ..*old(self)
            }),
    {
        let new_id: i32 = step_choice(self.player_id, step, 2);
        self.player_id = new_id;
        self.player_txt.text = self.player_names[new_id as usize].clone();
        self.player_txt.color = self.player_colors[new_id as usize];
    }

    /// Moves the choice of the device one on or back among those found,
    /// given which gamepads are there. The text of the device names the new
    /// choice; it is not yet put back round its middle.
    pub fn change_device(&mut self, available: &[bool; 4], step: i32)
        requires
            old(self).wf(),
            -1 <= step <= 1,
            without_gap(available@),
        ensures
            final(self).wf(),
            final(self).device_txt.text@ == device_numbered(final(self).device_id).name(),
            final(self).device_id == stepped_choice(
                old(self).device_id,
                step,
                devices_found(available@, 4).len() as i32,
            ),
            final(self).device_txt.text@ == devices_found(
                available@,
                4,
            )[final(self).device_id as int].name(),
            *final(self) == (ConnectScreen {
                device_id: final(self).device_id,
                device_txt: Text { text: final(self).device_txt.text, ..old(self).device_txt },
                ..*old(self)
            }),
    {
        let connected_devices: Vec<InputDevice> = InputUtils::get_connected_devices(available);
        let devices_amount: i32 = connected_devices.len() as i32;
        let new_id: i32 = step_choice(self.device_id, step, devices_amount);
        self.device_id = new_id;
        self.device_txt.text = connected_devices[new_id as usize].get_name();
    }

    /// Whether a connection can be asked for: the field holds an address,
    /// and a player and a device are chosen, as far as their sum shows it.
    pub open spec fn can_connect(self) -> bool {
        &&& pattern_match(IPV4_PATTERN@, self.remote_ip_field.text.text@) == Some(true)
        &&& self.device_id + self.player_id >= 0
    }

    /// The choice of the player and of the device after the mouse has been
    /// looked at, with `amount` devices found: the first pressed of the
    /// buttons to the device before, to the device after, to the player
    /// before and to the player after moves its choice.
    pub open spec fn choices_after_update(self, mouse: Mouse, amount: i32) -> (i32, i32) {
        if self.device_btns[0].pressed_by(mouse) {
            (self.player_id, stepped_choice(self.device_id, -1i32, amount))
        } else if self.device_btns[1].pressed_by(mouse) {
            (self.player_id, stepped_choice(self.device_id, 1, amount))
        } else if self.player_btns[0].pressed_by(mouse) {
            (stepped_choice(self.player_id, -1i32, 2), self.device_id)
        } else if self.player_btns[1].pressed_by(mouse) {
            (stepped_choice(self.player_id, 1, 2), self.device_id)
        } else {
            (self.player_id, self.device_id)
        }
    }

    /// Whether the mouse presses one of the buttons that move the choice
    /// of the device.
    pub open spec fn moves_device(self, mouse: Mouse) -> bool {
        self.device_btns[0].pressed_by(mouse) || self.device_btns[1].pressed_by(mouse)
    }

    /// Whether the mouse presses one of the buttons that move the choice
    /// of the player, and none of those of the device, which come first.
    pub open spec fn moves_player(self, mouse: Mouse) -> bool {
        !self.moves_device(mouse) && (self.player_btns[0].pressed_by(mouse)
            || self.player_btns[1].pressed_by(mouse))
    }

    /// Whether the screen can be updated with a mouse and a reading of the
    /// gamepads: it is sound, and where the mouse moves the choice of the
    /// device, so that the devices are looked up, the gamepads that are
    /// there come first.
    pub open spec fn can_take(self, mouse: Mouse, available: Seq<bool>) -> bool {
        self.wf() && (self.moves_device(mouse) ==> without_gap(available))
    }

    /// Whether the screen can be updated with a mouse and a reading of the
    /// gamepads.
    pub fn can_update(&self, mouse: Mouse, available: &[bool; 4]) -> (ready: bool)
        ensures
            ready == self.can_take(mouse, available@),
    {
        if !self.wf() {
            return false;
        }
        let moves: bool = self.device_btns[0].is_pressed(mouse) || self.device_btns[1].is_pressed(
            mouse,
        );
        !moves || InputUtils::has_no_gap(available)
    }

    /// Whether `after` is the screen after the mouse and the key have been
    /// looked at, given which gamepads are there: the choices are as
    /// `choices_after_update` says; the text of a choice that moved names
    /// the new choice, that of the player in the player's colour; the field
    /// has taken the key; the button to connect is enabled as the new
    /// choices and the new address allow; and nothing else has changed.
    pub open spec fn updates_to(
        self,
        after: ConnectScreen,
        mouse: Mouse,
        key: u8,
        available: Seq<bool>,
    ) -> bool {
        let devices = devices_found(available, 4);
        &&& after.wf()
        &&& (after.player_id, after.device_id) == self.choices_after_update(
            mouse,
            devices.len() as i32,
        )
        &&& after.device_txt.text@ == if self.moves_device(mouse) {
            devices[after.device_id as int].name()
        } else {
            self.device_txt.text@
        }
        &&& after.player_txt.text@ == if self.moves_player(mouse) {
            self.player_names[after.player_id as int]@
        } else {
            self.player_txt.text@
        }
        &&& self.remote_ip_field.types_to(after.remote_ip_field, key, mouse.position)
        &&& after == (ConnectScreen {
            player_id: after.player_id,
            device_id: after.device_id,
            player_txt: Text {
                text: after.player_txt.text,
                color: if self.moves_player(mouse) {
                    self.player_colors[after.player_id as int]
                } else {
                    self.player_txt.color
                },
                ..self.player_txt
            },
            device_txt: Text { text: after.device_txt.text, ..self.device_txt },
            remote_ip_field: after.remote_ip_field,
            connect_btn: Button { enabled: after.can_connect(), ..self.connect_btn },
            ..self
        })
    }

    /// Looks at the mouse and at the key that was pressed, 0 standing for
    /// none: the first pressed of the buttons for the device and for the
    /// player moves its choice, the field takes the key, and the button to
    /// connect is enabled as the choices and the address allow. Returns
    /// whether a text changed, so that the texts have to be put back round
    /// their middles.
    pub fn update(&mut self, mouse: Mouse, key: u8, available: &[bool; 4]) -> (changed: bool)
        requires
            old(self).can_take(mouse, available@),
        ensures
            old(self).updates_to(*final(self), mouse, key, available@),
            changed == (old(self).moves_device(mouse) || old(self).moves_player(mouse) || old(
                self,
            ).remote_ip_field.retyped(key, mouse.position)),
    {
        let mut changed: bool = true;
        if self.device_btns[0].is_pressed(mouse) {
            self.change_device(available, -1);
        } else if self.device_btns[1].is_pressed(mouse) {
            self.change_device(available, 1);
        } else if self.player_btns[0].is_pressed(mouse) {
            self.change_player(-1);
        } else if self.player_btns[1].is_pressed(mouse) {
            self.change_player(1);
        } else {
            changed = false;
        }
        let retyped: bool = self.remote_ip_field.update(key, mouse.position);
        self.connect_btn.enabled = self.remote_ip_field.is_ipv4() && self.device_id
            + self.player_id >= 0;
        changed || retyped
    }

    pub fn get_elements(&self, position: Vector2) -> (elements: ScreenElements)
        requires
            self.wf(),
        ensures
            elements.texts@ == seq![
                self.title_txt,
                self.player_txt,
                self.device_txt,
                self.remote_ip_txt,
                self.remote_info_txt,
                self.connection_status_txt,
            ],
            elements.fields.len() == 1,
            self.remote_ip_field.copied_as(elements.fields[0]),
            elements.buttons@ == seq![
                (self.connect_btn, self.connect_btn.color_at(position)),
                (self.device_btns[0], self.device_btns[0].color_at(position)),
                (self.device_btns[1], self.device_btns[1].color_at(position)),
                (self.player_btns[0], self.player_btns[0].color_at(position)),
                (self.player_btns[1], self.player_btns[1].color_at(position)),
            ],
    {
        let mut texts: Vec<Text> = Vec::new();
        texts.push(self.title_txt.duplicate());
        texts.push(self.player_txt.duplicate());
        texts.push(self.device_txt.duplicate());
        texts.push(self.remote_ip_txt.duplicate());
        texts.push(self.remote_info_txt.duplicate());
        texts.push(self.connection_status_txt.duplicate());
        let mut buttons: Vec<Button> = Vec::new();
        buttons.push(self.connect_btn.duplicate());
        buttons.push(self.device_btns[0].duplicate());
        buttons.push(self.device_btns[1].duplicate());
        buttons.push(self.player_btns[0].duplicate());
        buttons.push(self.player_btns[1].duplicate());
        let mut fields: Vec<TextField> = Vec::new();
        fields.push(self.remote_ip_field.duplicate());
        let elements: ScreenElements = ScreenElements::new(texts, buttons, fields, position);
        assert(elements.texts@ =~= seq![
            self.title_txt,
            self.player_txt,
            self.device_txt,
            self.remote_ip_txt,
            self.remote_info_txt,
            self.connection_status_txt,
        ]);
        assert(elements.buttons@ =~= seq![
            (self.connect_btn, self.connect_btn.color_at(position)),
            (self.device_btns[0], self.device_btns[0].color_at(position)),
            (self.device_btns[1], self.device_btns[1].color_at(position)),
            (self.player_btns[0], self.player_btns[0].color_at(position)),
            (self.player_btns[1], self.player_btns[1].color_at(position)),
        ]);
        elements
    }

    pub fn goes_to_scene(&self) -> (goes: bool)
        ensures
            !goes,
    {
        false
    }

    pub fn is_active(&self) -> (active: bool)
        ensures
            active == self.is_active,
    {
        self.is_active
    }
}

} // verus!

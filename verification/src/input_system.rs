//! Input sampling: from what a device reports in a frame to a cleaned and
//! smoothed direction for one player.

use vstd::prelude::*;
use crate::fixed::{fx_mul, lemma_blend_is_between, product_of, ONE};
use crate::shapes::Vector2;

verus! {

/// Stick deflections smaller than this count as none.
pub const GAMEPAD_DEADZONE: i64 = 150_000;

/// What one player's device gave in one frame.
#[derive(Clone, Copy, Debug, PartialEq, Eq, Structural)]
pub struct InputData {
    pub is_right_down: bool,
    pub is_left_down: bool,
    pub is_down_down: bool,
    pub is_up_down: bool,
    /// The time of the frame in which the device was read.
    pub sample_time: i64,
    /// The direction as resolved from the device.
    pub raw_dir: Vector2,
    /// The direction after smoothing.
    pub dir: Vector2,
}

/// The state of a device as read in one frame: its four direction buttons
/// in the order right, left, down, up, and its stick. A device without a
/// stick reports a stick at rest.
#[derive(Clone, Copy, Debug)]
pub struct DeviceReading {
    pub buttons: [bool; 4],
    pub axis: Vector2,
}

#[derive(Clone, Copy, Debug, PartialEq, Eq, Structural)]
pub struct KeyboardInput {
    pub use_wasd: bool,
}

#[derive(Clone, Copy, Debug, PartialEq, Eq, Structural)]
pub struct GamepadInput {
    pub gamepad_id: i32,
    pub use_axis: bool,
}

/// The devices a player can be bound to.
#[derive(Clone, Copy, Debug, PartialEq, Eq, Structural)]
pub enum InputDevice {
    Keyboard(KeyboardInput),
    Gamepad(GamepadInput),
}

/// The sampler of one player: one device, the smoothing rate and the
/// last sample taken.
#[derive(Clone, Copy, Debug)]
pub struct PlayerInput {
    pub id: i32,
    pub input_snapness: i64,
    pub last_data: InputData,
    pub first_input_socd: bool,
    pub device: InputDevice,
}

impl InputData {
    /// A sample with no button down and no direction.
    pub open spec fn blank(sample_time: i64) -> InputData {
        InputData {
            is_right_down: false,
            is_left_down: false,
            is_down_down: false,
            is_up_down: false,
            sample_time,
            raw_dir: Vector2::zero(),
            dir: Vector2::zero(),
        }
    }

    pub fn new(sample_time: i64) -> (data: InputData)
        ensures
            data == InputData::blank(sample_time),
    {
        InputData {
            is_right_down: false,
            is_left_down: false,
            is_down_down: false,
            is_up_down: false,
            sample_time,
            raw_dir: Vector2::zero(),
            dir: Vector2::zero(),
        }
    }
}

impl KeyboardInput {
    pub fn new(use_wasd: bool) -> (device: KeyboardInput)
        ensures
            device.use_wasd == use_wasd,
    {
        KeyboardInput { use_wasd }
    }

    /// A keyboard has no stick.
    pub fn use_axis(&self) -> (uses: bool)
        ensures
            !uses,
    {
        false
    }

    /// The four keys as they were read.
    pub fn get_buttons(&self, reading: &DeviceReading) -> (buttons: [bool; 4])
        ensures
            buttons == reading.buttons,
    {
        reading.buttons
    }
}

/// The buttons that a stick stands for where it is read as a direction pad:
/// a direction is down where the stick is deflected past the dead zone.
pub open spec fn stick_buttons(axis: Vector2) -> Seq<bool> {
    seq![
        axis.x > GAMEPAD_DEADZONE,
        axis.x < -GAMEPAD_DEADZONE,
        axis.y < -GAMEPAD_DEADZONE,
        axis.y > GAMEPAD_DEADZONE,
    ]
}

impl GamepadInput {
    pub fn new(gamepad_id: i32, use_axis: bool) -> (device: GamepadInput)
        ensures
            device == (GamepadInput { gamepad_id, use_axis }),
    {
        GamepadInput { use_axis, gamepad_id }
    }

    pub fn use_axis(&self) -> (uses: bool)
        ensures
            uses == self.use_axis,
    {
        self.use_axis
    }

    pub open spec fn buttons_of(self, reading: DeviceReading) -> Seq<bool> {
        if self.use_axis {
            reading.buttons@
        } else {
            stick_buttons(reading.axis)
        }
    }

    /// The direction pad where the stick is in use for the direction;
    /// else the stick, read as a direction pad.
    pub fn get_buttons(&self, reading: &DeviceReading) -> (buttons: [bool; 4])
        ensures
            buttons@ == self.buttons_of(*reading),
    {
        if self.use_axis {
            return reading.buttons;
        }
        let buttons: [bool; 4] = [
            reading.axis.x > GAMEPAD_DEADZONE,
            reading.axis.x < -GAMEPAD_DEADZONE,
            reading.axis.y < -GAMEPAD_DEADZONE,
            reading.axis.y > GAMEPAD_DEADZONE,
        ];
        assert(buttons@ =~= stick_buttons(reading.axis));
        buttons
    }

    /// The stick as it was read.
    pub fn get_axis(&self, reading: &DeviceReading) -> (axis: Vector2)
        requires
            self.use_axis,
        ensures
            axis == reading.axis,
    {
        reading.axis
    }
}

impl InputDevice {
    pub open spec fn uses_axis(&self) -> bool {
        match *self {
            InputDevice::Keyboard(_) => false,
            InputDevice::Gamepad(pad) => pad.use_axis,
        }
    }

    #[verifier::when_used_as_spec(uses_axis)]
    pub fn use_axis(&self) -> (uses: bool)
        ensures
            uses == self.uses_axis(),
    {
        match self {
            InputDevice::Keyboard(keys) => keys.use_axis(),
            InputDevice::Gamepad(pad) => pad.use_axis(),
        }
    }

    pub open spec fn buttons_of(self, reading: DeviceReading) -> Seq<bool> {
        match self {
            InputDevice::Keyboard(_) => reading.buttons@,
            InputDevice::Gamepad(pad) => pad.buttons_of(reading),
        }
    }

    pub fn get_buttons(&self, reading: &DeviceReading) -> (buttons: [bool; 4])
        ensures
            buttons@ == self.buttons_of(*reading),
    {
        match self {
            InputDevice::Keyboard(keys) => keys.get_buttons(reading),
            InputDevice::Gamepad(pad) => pad.get_buttons(reading),
        }
    }

    /// The name under which the device is offered for choice.
    pub open spec fn name(self) -> Seq<char> {
        match self {
            InputDevice::Keyboard(keys) => if keys.use_wasd {
                "Keyboard (WASD)"@
            } else {
                "Keyboard (Arrows)"@
            },
            InputDevice::Gamepad(pad) => if pad.gamepad_id == 0 {
                "Gamepad 1"@
            } else if pad.gamepad_id == 1 {
                "Gamepad 2"@
            } else if pad.gamepad_id == 2 {
                "Gamepad 3"@
            } else if pad.gamepad_id == 3 {
                "Gamepad 4"@
            } else {
                "Gamepad"@
            },
        }
    }

    pub fn get_name(&self) -> (name: String)
        ensures
            name@ == self.name(),
    {
        match self {
            InputDevice::Keyboard(keys) => if keys.use_wasd {
                "Keyboard (WASD)".to_owned()
            } else {
                "Keyboard (Arrows)".to_owned()
            },
            InputDevice::Gamepad(pad) => if pad.gamepad_id == 0 {
                "Gamepad 1".to_owned()
            } else if pad.gamepad_id == 1 {
                "Gamepad 2".to_owned()
            } else if pad.gamepad_id == 2 {
                "Gamepad 3".to_owned()
            } else if pad.gamepad_id == 3 {
                "Gamepad 4".to_owned()
            } else {
                "Gamepad".to_owned()
            },
        }
    }

    /// The stick of a device that has one in use.
    pub fn get_axis(&self, reading: &DeviceReading) -> (axis: Vector2)
        requires
            self.uses_axis(),
        ensures
            axis == reading.axis,
    {
        match self {
            InputDevice::Keyboard(_) => Vector2::zero(),
            InputDevice::Gamepad(pad) => pad.get_axis(reading),
        }
    }
}

/// A stick component with the dead zone taken out.
pub open spec fn past_deadzone(v: i64) -> i64 {
    if -GAMEPAD_DEADZONE < v < GAMEPAD_DEADZONE {
        0
    } else {
        v
    }
}

pub fn apply_deadzone(v: i64) -> (r: i64)
    ensures
        r == past_deadzone(v),
{
    if -GAMEPAD_DEADZONE < v && v < GAMEPAD_DEADZONE {
        0
    } else {
        v
    }
}

/// The direction on one axis from its two opposing buttons.
///
/// With one of them down the direction is that button's. With both down
/// and neutral resolution it is 0. With both down and priority resolution
/// the button pressed last wins: the one that was up in the sample before;
/// while both stay down the winner of the sample before keeps the axis,
/// and two buttons pressed in the same frame cancel.
pub open spec fn resolved_axis(
    priority: bool,
    negative: bool,
    positive: bool,
    was_negative: bool,
    was_positive: bool,
    previous: i64,
) -> i64 {
    if negative && positive {
        if !priority {
            0
        } else if was_negative && !was_positive {
            ONE as i64
        } else if was_positive && !was_negative {
            (-ONE) as i64
        } else if was_negative && was_positive {
            if previous > 0 {
                ONE as i64
            } else if previous < 0 {
                (-ONE) as i64
            } else {
                0
            }
        } else {
            0
        }
    } else if positive {
        ONE as i64
    } else if negative {
        (-ONE) as i64
    } else {
        0
    }
}

pub fn resolve_axis(
    priority: bool,
    negative: bool,
    positive: bool,
    was_negative: bool,
    was_positive: bool,
    previous: i64,
) -> (direction: i64)
    ensures
        direction == resolved_axis(
            priority,
            negative,
            positive,
            was_negative,
            was_positive,
            previous,
        ),
        direction == 0 || direction == ONE || direction == -ONE,
{
    if negative && positive {
        if !priority {
            0
        } else if was_negative && !was_positive {
            ONE
        } else if was_positive && !was_negative {
            -ONE
        } else if was_negative && was_positive {
            if previous > 0 {
                ONE
            } else if previous < 0 {
                -ONE
            } else {
                0
            }
        } else {
            0
        }
    } else if positive {
        ONE
    } else if negative {
        -ONE
    } else {
        0
    }
}

impl PlayerInput {
    pub fn new(player_id: i32, device: InputDevice, snapness: i64, use_first_input: bool) -> (input:
        PlayerInput)
        ensures
            input.id == player_id,
            input.device == device,
            input.input_snapness == snapness,
            input.first_input_socd == use_first_input,
            input.last_data == InputData::blank(0),
    {
        PlayerInput {
            id: player_id,
            input_snapness: snapness,
            last_data: InputData::new(0),
            first_input_socd: use_first_input,
            device,
        }
    }

    /// The direction that four buttons stand for, given the sample before:
    /// each axis resolved from its pair of buttons, right and down being
    /// the positive directions.
    pub open spec fn direction_of(self, buttons: Seq<bool>) -> Vector2 {
        Vector2 {
            x: resolved_axis(
                self.first_input_socd,
                buttons[1],
                buttons[0],
                self.last_data.is_left_down,
                self.last_data.is_right_down,
                self.last_data.raw_dir.x,
            ),
            y: resolved_axis(
                self.first_input_socd,
                buttons[3],
                buttons[2],
                self.last_data.is_up_down,
                self.last_data.is_down_down,
                self.last_data.raw_dir.y,
            ),
        }
    }

    pub fn buttons_to_dir(&self, raw_data: &[bool; 4]) -> (direction: Vector2)
        ensures
            direction == self.direction_of(raw_data@),
    {
        let x: i64 = resolve_axis(
            self.first_input_socd,
            raw_data[1],
            raw_data[0],
            self.last_data.is_left_down,
            self.last_data.is_right_down,
            self.last_data.raw_dir.x,
        );
        let y: i64 = resolve_axis(
            self.first_input_socd,
            raw_data[3],
            raw_data[2],
            self.last_data.is_up_down,
            self.last_data.is_down_down,
            self.last_data.raw_dir.y,
        );
        Vector2 { x, y }
    }

    /// The stick of a reading with the dead zone taken out of each
    /// component.
    pub open spec fn cleaned_axis(reading: DeviceReading) -> Vector2 {
        Vector2 { x: past_deadzone(reading.axis.x), y: past_deadzone(reading.axis.y) }
    }

    /// The direction that a reading stands for: the stick, where the device
    /// has one in use and it is deflected past the dead zone; else the
    /// buttons.
    pub open spec fn raw_direction(self, reading: DeviceReading) -> Vector2 {
        if self.device.uses_axis() && PlayerInput::cleaned_axis(reading) != Vector2::zero() {
            PlayerInput::cleaned_axis(reading)
        } else {
            self.direction_of(self.device.buttons_of(reading))
        }
    }

    /// The sample that a reading gives at time `now`, `frame_time` after
    /// the frame before: the buttons, the raw direction, and the smoothed
    /// direction of the sample before moved toward the raw one by the share
    /// `input_snapness * frame_time`.
    pub open spec fn sampled(self, now: i64, frame_time: i64, reading: DeviceReading) -> InputData {
        let buttons = self.device.buttons_of(reading);
        let raw = self.raw_direction(reading);
        InputData {
            is_right_down: buttons[0],
            is_left_down: buttons[1],
            is_down_down: buttons[2],
            is_up_down: buttons[3],
            sample_time: now,
            raw_dir: raw,
            dir: self.last_data.dir.lerp(raw, product_of(self.input_snapness, frame_time)),
        }
    }

    pub fn read_data(&self, now: i64, frame_time: i64, reading: &DeviceReading) -> (data: InputData)
        ensures
            data == self.sampled(now, frame_time, *reading),
    {
        let buttons: [bool; 4] = self.device.get_buttons(reading);
        let mut raw: Vector2 = Vector2::zero();
        if self.device.use_axis() {
            let axis: Vector2 = self.device.get_axis(reading);
            raw = Vector2 { x: apply_deadzone(axis.x), y: apply_deadzone(axis.y) };
        }
        if raw == Vector2::zero() {
            raw = self.buttons_to_dir(&buttons);
        }
        InputData {
            is_right_down: buttons[0],
            is_left_down: buttons[1],
            is_down_down: buttons[2],
            is_up_down: buttons[3],
            sample_time: now,
            raw_dir: raw,
            dir: self.last_data.dir.lerp(raw, fx_mul(self.input_snapness, frame_time)),
        }
    }

    /// What `get_data` leaves as the last sample: the one already held
    /// where it was taken at `now`, else a new one.
    pub open spec fn after_get(self, now: i64, frame_time: i64, reading: DeviceReading) -> InputData {
        if self.last_data.sample_time == now {
            self.last_data
        } else {
            self.sampled(now, frame_time, reading)
        }
    }

    /// The sample of the frame at time `now`. The device is read once per
    /// frame: a second call with the same `now` hands back the sample that
    /// the first one took.
    pub fn get_data(&mut self, now: i64, frame_time: i64, reading: &DeviceReading) -> (data:
        InputData)
        ensures
            data == old(self).after_get(now, frame_time, *reading),
            *final(self) == (PlayerInput { last_data: data, ..*old(self) }),
    {
        if self.last_data.sample_time != now {
            self.last_data = self.read_data(now, frame_time, reading);
        }
        self.last_data
    }

    /// Replaces the smoothed direction of the last sample.
    pub fn override_last_dir(&mut self, dir: Vector2)
        ensures
            *final(self) == (PlayerInput {
                last_data: InputData { dir, ..old(self).last_data },
                ..*old(self)
            }),
    {
        self.last_data.dir = dir;
    }
}

/// With neutral resolution, opposing buttons that are down together
/// cancel: the raw direction is 0 on their axis, whatever came before.
/// This holds of every sample that is resolved from the buttons, that is
/// unless the device has a stick in use and deflected.
pub proof fn lemma_neutral_cancels(input: PlayerInput, reading: DeviceReading)
    requires
        !input.first_input_socd,
        !input.device.uses_axis() || PlayerInput::cleaned_axis(reading) == Vector2::zero(),
    ensures
        ({
            let buttons = input.device.buttons_of(reading);
            &&& buttons[0] && buttons[1] ==> input.raw_direction(reading).x == 0
            &&& buttons[2] && buttons[3] ==> input.raw_direction(reading).y == 0
        }),
{
}

/// With priority resolution the button pressed last wins, and its release
/// gives the axis back to the other one. Take a sampler whose last sample
/// had left down and right up, on a device read by its buttons. A reading
/// with both down gives right; a further one with both down still gives
/// right; and once right is up again, with left still down, the direction
/// is left.
pub proof fn lemma_last_pressed_wins(
    input: PlayerInput,
    pressed: DeviceReading,
    held: DeviceReading,
    released: DeviceReading,
    times: (i64, i64, i64),
    frame_time: i64,
)
    requires
        input.first_input_socd,
        !input.device.uses_axis(),
        input.last_data.is_left_down && !input.last_data.is_right_down,
        input.device.buttons_of(pressed)[0] && input.device.buttons_of(pressed)[1],
        input.device.buttons_of(held)[0] && input.device.buttons_of(held)[1],
        !input.device.buttons_of(released)[0] && input.device.buttons_of(released)[1],
    ensures
        ({
            let first = input.sampled(times.0, frame_time, pressed);
            let second = (PlayerInput { last_data: first, ..input }).sampled(
                times.1,
                frame_time,
                held,
            );
            let third = (PlayerInput { last_data: second, ..input }).sampled(
                times.2,
                frame_time,
                released,
            );
            &&& first.raw_dir.x == ONE
            &&& second.raw_dir.x == ONE
            &&& third.raw_dir.x == -ONE
        }),
{
}

/// A second request for the sample of the same frame reads no device: it
/// gives the first sample again and leaves the sampler as it is, whatever
/// the reading that comes with it.
pub proof fn lemma_one_sample_per_frame(
    input: PlayerInput,
    now: i64,
    frame_time: i64,
    first: DeviceReading,
    second: DeviceReading,
)
    ensures
        ({
            let taken = input.after_get(now, frame_time, first);
            (PlayerInput { last_data: taken, ..input }).after_get(now, frame_time, second) == taken
        }),
{
}

/// Whether both components of a direction are between -1 and 1.
pub open spec fn within_unit(direction: Vector2) -> bool {
    -ONE <= direction.x <= ONE && -ONE <= direction.y <= ONE
}

/// Directions stay within 1 either way. Where the stick is read within
/// that range, the raw direction of a sample is within it, each component of
/// one that is resolved from the buttons being -1, 0 or 1; and where the
/// smoothed direction of the sample before was within it too, and the share
/// of the smoothing is between 0 and 1, so is the new smoothed direction.
pub proof fn lemma_directions_stay_within_unit(
    input: PlayerInput,
    now: i64,
    frame_time: i64,
    reading: DeviceReading,
)
    requires
        within_unit(reading.axis),
    ensures
        within_unit(input.sampled(now, frame_time, reading).raw_dir),
        ({
            let resolved = input.direction_of(input.device.buttons_of(reading));
            &&& resolved.x == 0 || resolved.x == ONE || resolved.x == -ONE
            &&& resolved.y == 0 || resolved.y == ONE || resolved.y == -ONE
        }),
        within_unit(input.last_data.dir) && 0 <= product_of(input.input_snapness, frame_time)
            <= ONE ==> within_unit(input.sampled(now, frame_time, reading).dir),
{
    let sample = input.sampled(now, frame_time, reading);
    let share = product_of(input.input_snapness, frame_time);
    if 0 <= share <= ONE {
        lemma_blend_is_between(input.last_data.dir.x, sample.raw_dir.x, share);
        lemma_blend_is_between(input.last_data.dir.y, sample.raw_dir.y, share);
    }
}

} // verus!

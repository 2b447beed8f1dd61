//! Constants and small helpers shared by the other modules.

use vstd::prelude::*;
use crate::input_system::{GamepadInput, InputDevice, KeyboardInput};
use crate::networking::{same_text, type_tagged, MessageContentType};

verus! {

/// The width of the playfield.
pub const SCREEN_WIDTH: i64 = 640_000_000;

/// The height of the playfield.
pub const SCREEN_HEIGHT: i64 = 480_000_000;

/// The middle of the playfield, across.
pub const SCREEN_CENTER_X: i64 = 320_000_000;

/// The middle of the playfield, up and down.
pub const SCREEN_CENTER_Y: i64 = 240_000_000;

/// How many gamepads are looked for.
pub const MAX_CONNECTED_GAMEPADS: usize = 4;

pub struct MiscUtils;

pub struct DebugUtils;

pub struct InputUtils;

pub struct NetworkUtils;

/// What `str::parse::<i32>` makes of a text: the number that it writes in
/// decimal, if it writes one that an `i32` holds.
pub uninterp spec fn parsed_score(text: Seq<char>) -> Option<i32>;

/// Calls `str::parse::<i32>`, which depends on the text alone, and gives
/// its number, or nothing where it reports an error.
#[verifier::external_body]
fn parse_score(text: &str) -> (score: Option<i32>)
    ensures
        score == parsed_score(text@),
{
    text.parse::<i32>().ok()
}

/// The device with the given number: 0 and 1 are the keyboard, with the
/// letter keys and with the arrow keys; every other number is the gamepad
/// two below it, with its stick in use.
pub open spec fn device_numbered(id: i32) -> InputDevice {
    if id == 0 {
        InputDevice::Keyboard(KeyboardInput { use_wasd: true })
    } else if id == 1 {
        InputDevice::Keyboard(KeyboardInput { use_wasd: false })
    } else {
        InputDevice::Gamepad(GamepadInput { gamepad_id: (id - 2) as i32, use_axis: true })
    }
}

/// The devices found with the first `count` gamepads looked at: the two
/// keyboards, then each gamepad that is there, in the order of their
/// numbers.
pub open spec fn devices_found(available: Seq<bool>, count: int) -> Seq<InputDevice>
    decreases count,
{
    if count <= 0 {
        seq![device_numbered(0), device_numbered(1)]
    } else if available[count - 1] {
        devices_found(available, count - 1).push(
            InputDevice::Gamepad(GamepadInput { gamepad_id: (count - 1) as i32, use_axis: true }),
        )
    } else {
        devices_found(available, count - 1)
    }
}

/// Whether the gamepads that are there come first: none is there
/// without those before it.
pub open spec fn without_gap(available: Seq<bool>) -> bool {
    forall|i: int, j: int|
        0 <= j < i < available.len() && #[trigger] available[i] ==> #[trigger] available[j]
}

/// Without a gap among the gamepads, each device found stands in the list
/// at its own number.
pub proof fn lemma_devices_stand_at_their_numbers(available: Seq<bool>, count: int, place: int)
    requires
        without_gap(available),
        0 <= count <= available.len(),
        count < i32::MAX - 2,
        0 <= place < devices_found(available, count).len(),
    ensures
        devices_found(available, count)[place] == device_numbered(place as i32),
    decreases count,
{
    if count > 0 {
        if place < devices_found(available, count - 1).len() {
            lemma_devices_stand_at_their_numbers(available, count - 1, place);
        } else {
            lemma_all_found(available, count - 1);
        }
    }
}

/// Where the first `count` gamepads are all there, all of them are found;
/// and never more are found than were looked at.
proof fn lemma_all_found(available: Seq<bool>, count: int)
    requires
        0 <= count <= available.len(),
    ensures
        devices_found(available, count).len() <= count + 2,
        (forall|i: int| 0 <= i < count ==> #[trigger] available[i]) ==> devices_found(
            available,
            count,
        ).len() == count + 2,
    decreases count,
{
    if count > 0 {
        lemma_all_found(available, count - 1);
    }
}

impl InputUtils {
    /// Whether the gamepads that are there come first.
    pub fn has_no_gap(available: &[bool; 4]) -> (sound: bool)
        ensures
            sound == without_gap(available@),
    {
        (!available[1] || available[0]) && (!available[2] || available[1]) && (!available[3]
            || available[2])
    }

    pub fn get_device_by_id(id: i32) -> (device: InputDevice)
        requires
            id >= i32::MIN + 2,
        ensures
            device == device_numbered(id),
    {
        if id == 0 {
            InputDevice::Keyboard(KeyboardInput::new(true))
        } else if id == 1 {
            InputDevice::Keyboard(KeyboardInput::new(false))
        } else {
            InputDevice::Gamepad(GamepadInput::new(id - 2, true))
        }
    }

    /// The devices that can be chosen, given which of the gamepads are
    /// there, for gamepads that come first: none is there without the one
    /// before it. Each device then stands in the list at its own number.
    pub fn get_connected_devices(available: &[bool; 4]) -> (devices: Vec<InputDevice>)
        requires
            without_gap(available@),
        ensures
            devices@ == devices_found(available@, 4),
            2 <= devices.len() <= 6,
            forall|place: int|
                0 <= place < devices.len() ==> #[trigger] devices[place] == device_numbered(
                    place as i32,
                ),
    {
        let mut devices: Vec<InputDevice> = Vec::with_capacity(MAX_CONNECTED_GAMEPADS + 2);
        devices.push(InputDevice::Keyboard(KeyboardInput::new(true)));
        devices.push(InputDevice::Keyboard(KeyboardInput::new(false)));
        assert(devices@ =~= devices_found(available@, 0));
        let mut i: usize = 0;
        while i < MAX_CONNECTED_GAMEPADS
            invariant
                i <= MAX_CONNECTED_GAMEPADS,
                devices@ == devices_found(available@, i as int),
                2 <= devices.len() <= 2 + i,
            decreases MAX_CONNECTED_GAMEPADS - i,
        {
            if available[i] {
                devices.push(InputDevice::Gamepad(GamepadInput::new(i as i32, true)));
            }
            i = i + 1;
        }
        proof {
            assert forall|place: int| 0 <= place < devices.len() implies #[trigger] devices[place]
                == device_numbered(place as i32) by {
                lemma_devices_stand_at_their_numbers(available@, 4, place);
            }
        }
        devices
    }
}

impl NetworkUtils {
    /// The size and the type of content that the first two bytes of an
    /// encoded message give.
    pub fn decode_msg_header(msg: &[u8]) -> (header: (u8, MessageContentType))
        requires
            msg@.len() >= 2,
            msg@[1] < 16,
        ensures
            header.0 == msg@[0],
            header.1 == type_tagged(msg@[1]),
    {
        match MessageContentType::from_tag(msg[1]) {
            Some(content_type) => (msg[0], content_type),
            None => (msg[0], MessageContentType::STR),
        }
    }
}

/// The high score that a store gives, and whether the store has to be
/// written anew with `0`, given what the text of the store writes: nothing
/// at all for a store that is not there, no number for a text that is none.
/// The number of a store that writes one is the high score, and the store
/// stays. Every other store counts as no high score yet: the high score is
/// 0, and the store is to be written anew.
pub open spec fn score_of_store(written: Option<Option<i32>>) -> (i32, bool) {
    match written {
        Some(Some(score)) => (score, false),
        _ => (0, true),
    }
}

impl MiscUtils {
    /// The high score and whether the store has to be written anew, given
    /// what the text of the store writes.
    pub fn read_store(written: Option<Option<i32>>) -> (found: (i32, bool))
        ensures
            found == score_of_store(written),
    {
        match written {
            Some(Some(score)) => (score, false),
            _ => (0, true),
        }
    }

    /// The high score and whether the store has to be written anew with
    /// `0`, given the text of the store, or nothing for a store that is not
    /// there. A store that is missing or whose text is no number counts as
    /// no high score yet.
    pub fn get_highscore(stored: Option<&str>) -> (found: (i32, bool))
        ensures
            found == score_of_store(
                match stored {
                    Some(text) => Some(parsed_score(text@)),
                    None => None,
                },
            ),
    {
        match stored {
            Some(text) => MiscUtils::read_store(Some(parse_score(text))),
            None => MiscUtils::read_store(None),
        }
    }
}

impl DebugUtils {
    /// Whether a debug session is asked for, given the value of the
    /// variable `DEBUG`, if it is set: it is asked for by the value `1`.
    pub fn is_debug_session(value: Option<&str>) -> (debug: bool)
        ensures
            debug == (value matches Some(text) && text@ == "1"@),
    {
        match value {
            Some(text) => same_text(text, "1"),
            None => false,
        }
    }
}

} // verus!

use pong2::input_system::{GamepadInput, InputDevice, KeyboardInput};
use pong2::utils::{
    DebugUtils, InputUtils, MiscUtils, MAX_CONNECTED_GAMEPADS, SCREEN_CENTER_X, SCREEN_CENTER_Y,
    SCREEN_HEIGHT, SCREEN_WIDTH,
};

#[test]
fn playfield_is_640_by_480() {
    assert_eq!(SCREEN_WIDTH, 640_000_000);
    assert_eq!(SCREEN_HEIGHT, 480_000_000);
    assert_eq!(SCREEN_CENTER_X, SCREEN_WIDTH / 2);
    assert_eq!(SCREEN_CENTER_Y, SCREEN_HEIGHT / 2);
    assert_eq!(MAX_CONNECTED_GAMEPADS, 4);
}

#[test]
fn devices_go_by_their_numbers() {
    assert_eq!(InputUtils::get_device_by_id(0), InputDevice::Keyboard(KeyboardInput::new(true)));
    assert_eq!(InputUtils::get_device_by_id(1), InputDevice::Keyboard(KeyboardInput::new(false)));
    assert_eq!(InputUtils::get_device_by_id(2), InputDevice::Gamepad(GamepadInput::new(0, true)));
    assert_eq!(InputUtils::get_device_by_id(5), InputDevice::Gamepad(GamepadInput::new(3, true)));
    assert_eq!(InputUtils::get_device_by_id(-1), InputDevice::Gamepad(GamepadInput::new(-3, true)));
}

#[test]
fn keyboards_are_always_found() {
    let found = InputUtils::get_connected_devices(&[false, false, false, false]);
    assert_eq!(
        found,
        vec![
            InputDevice::Keyboard(KeyboardInput::new(true)),
            InputDevice::Keyboard(KeyboardInput::new(false)),
        ]
    );
}

#[test]
fn gamepads_are_found_in_the_order_of_their_numbers() {
    let found = InputUtils::get_connected_devices(&[true, true, false, false]);
    assert_eq!(
        found,
        vec![
            InputDevice::Keyboard(KeyboardInput::new(true)),
            InputDevice::Keyboard(KeyboardInput::new(false)),
            InputDevice::Gamepad(GamepadInput::new(0, true)),
            InputDevice::Gamepad(GamepadInput::new(1, true)),
        ]
    );
    assert_eq!(InputUtils::get_connected_devices(&[true, true, true, true]).len(), 6);
}

#[test]
fn each_device_found_stands_at_its_number() {
    let readings = [
        [false, false, false, false],
        [true, false, false, false],
        [true, true, false, false],
        [true, true, true, false],
        [true, true, true, true],
    ];
    for (pads, reading) in readings.iter().enumerate() {
        assert!(InputUtils::has_no_gap(reading));
        let found = InputUtils::get_connected_devices(reading);
        assert_eq!(found.len(), pads + 2);
        for (place, device) in found.iter().enumerate() {
            assert_eq!(*device, InputUtils::get_device_by_id(place as i32));
        }
    }
}

#[test]
fn gamepad_without_the_one_before_it_is_a_gap() {
    assert!(!InputUtils::has_no_gap(&[false, true, false, false]));
    assert!(!InputUtils::has_no_gap(&[true, false, true, false]));
    assert!(!InputUtils::has_no_gap(&[true, true, false, true]));
    assert!(!InputUtils::has_no_gap(&[false, false, false, true]));
    assert!(InputUtils::has_no_gap(&[true, true, false, false]));
}

#[test]
fn missing_store_counts_as_no_high_score_yet() {
    assert_eq!(MiscUtils::get_highscore(None), (0, true));
}

#[test]
fn high_score_is_the_number_in_the_store() {
    assert_eq!(MiscUtils::get_highscore(Some("42")), (42, false));
    assert_eq!(MiscUtils::get_highscore(Some("0")), (0, false));
    assert_eq!(MiscUtils::get_highscore(Some("-7")), (-7, false));
    assert_eq!(MiscUtils::get_highscore(Some("+7")), (7, false));
    assert_eq!(MiscUtils::get_highscore(Some("2147483647")), (i32::MAX, false));
}

#[test]
fn store_without_a_number_counts_as_no_high_score_yet() {
    assert_eq!(MiscUtils::get_highscore(Some("")), (0, true));
    assert_eq!(MiscUtils::get_highscore(Some("42\n")), (0, true));
    assert_eq!(MiscUtils::get_highscore(Some("forty-two")), (0, true));
    assert_eq!(MiscUtils::get_highscore(Some("2147483648")), (0, true));
}

#[test]
fn store_is_written_anew_unless_it_writes_a_number() {
    assert_eq!(MiscUtils::read_store(None), (0, true));
    assert_eq!(MiscUtils::read_store(Some(None)), (0, true));
    assert_eq!(MiscUtils::read_store(Some(Some(0))), (0, false));
    assert_eq!(MiscUtils::read_store(Some(Some(-3))), (-3, false));
    assert_eq!(MiscUtils::read_store(Some(Some(i32::MAX))), (i32::MAX, false));
}

#[test]
fn debug_session_is_asked_for_by_the_value_one() {
    assert!(DebugUtils::is_debug_session(Some("1")));
    assert!(!DebugUtils::is_debug_session(Some("0")));
    assert!(!DebugUtils::is_debug_session(Some("11")));
    assert!(!DebugUtils::is_debug_session(Some("")));
    assert!(!DebugUtils::is_debug_session(None));
}

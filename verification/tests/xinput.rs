use resonance_bhop::assist::{DpadDirection, StickState};
use resonance_bhop::xinput::{
    ERROR_DEVICE_NOT_CONNECTED, ERROR_SUCCESS, XINPUT_GAMEPAD_A, XINPUT_GAMEPAD_B,
    XINPUT_GAMEPAD_DPAD_DOWN, XINPUT_GAMEPAD_DPAD_LEFT, XINPUT_GAMEPAD_DPAD_RIGHT,
    XINPUT_GAMEPAD_DPAD_UP, XINPUT_GAMEPAD_START, XINPUT_GAMEPAD_X, XInputGamepad,
    XInputPollError, XInputSnapshot, dpad_from_buttons, map_xinput_state, poll_outcome,
    raw_from_xinput_axis, scan_xinput_devices,
};

fn gamepad() -> XInputGamepad {
    XInputGamepad {
        buttons: 0,
        left_trigger: 0,
        right_trigger: 0,
        thumb_lx: 0,
        thumb_ly: 0,
        thumb_rx: 0,
        thumb_ry: 0,
    }
}

#[test]
fn xinput_axis_conversion_matches_controller_raw_convention() {
    assert_eq!(raw_from_xinput_axis(i16::MIN as i32), 0);
    assert_eq!(raw_from_xinput_axis(0), 128);
    assert_eq!(raw_from_xinput_axis(i16::MAX as i32), 255);
}

#[test]
fn xinput_mapping_preserves_face_buttons_and_triggers() {
    let mut raw = gamepad();
    let packet_number = 42;
    raw.buttons = XINPUT_GAMEPAD_A | XINPUT_GAMEPAD_X | XINPUT_GAMEPAD_START | XINPUT_GAMEPAD_DPAD_LEFT;
    raw.left_trigger = 64;
    raw.right_trigger = 200;
    raw.thumb_lx = i16::MAX;
    raw.thumb_ly = i16::MIN;

    let snapshot = XInputSnapshot {
        packet_number,
        state: map_xinput_state(raw),
    };

    assert_eq!(snapshot.packet_number, 42);
    assert!(snapshot.state.buttons.cross);
    assert!(snapshot.state.buttons.square);
    assert!(snapshot.state.buttons.options);
    assert_eq!(snapshot.state.dpad, DpadDirection::West);
    assert_eq!(snapshot.state.l2, 64);
    assert_eq!(snapshot.state.r2, 200);
    assert!(snapshot.state.buttons.l2_button);
    assert!(snapshot.state.buttons.r2_button);
    assert_eq!(snapshot.state.left_stick.raw_x, 255);
    assert_eq!(snapshot.state.left_stick.raw_y, 255);
}

#[test]
fn xinput_axis_rounding() {
    assert_eq!(raw_from_xinput_axis(-1), 128);
    assert_eq!(raw_from_xinput_axis(-257), 127);
    assert_eq!(raw_from_xinput_axis(100_000), 255);
    assert_eq!(raw_from_xinput_axis(-100_000), 0);
    assert_eq!(raw_from_xinput_axis(16_384), 192);
}

#[test]
fn xinput_trigger_clicks_need_threshold() {
    let mut raw = gamepad();
    raw.left_trigger = 29;
    raw.right_trigger = 30;
    let state = map_xinput_state(raw);
    assert!(!state.buttons.l2_button);
    assert!(state.buttons.r2_button);
    assert!(!state.buttons.ps && !state.buttons.touchpad && !state.buttons.mute);
    raw.buttons = XINPUT_GAMEPAD_B;
    assert!(map_xinput_state(raw).buttons.circle);
}

#[test]
fn xinput_dpad_combinations() {
    assert_eq!(dpad_from_buttons(XINPUT_GAMEPAD_DPAD_UP), DpadDirection::North);
    assert_eq!(
        dpad_from_buttons(XINPUT_GAMEPAD_DPAD_DOWN | XINPUT_GAMEPAD_DPAD_RIGHT),
        DpadDirection::SouthEast
    );
    assert_eq!(
        dpad_from_buttons(XINPUT_GAMEPAD_DPAD_UP | XINPUT_GAMEPAD_DPAD_DOWN),
        DpadDirection::Neutral
    );
    assert_eq!(dpad_from_buttons(0), DpadDirection::Neutral);
}

#[test]
fn poll_outcomes() {
    let raw = gamepad();
    assert_eq!(
        poll_outcome(1, ERROR_SUCCESS, 7, raw),
        Ok(Some(XInputSnapshot {
            packet_number: 7,
            state: map_xinput_state(raw)
        }))
    );
    assert_eq!(poll_outcome(1, ERROR_DEVICE_NOT_CONNECTED, 7, raw), Ok(None));
    assert_eq!(
        poll_outcome(3, 5, 7, raw),
        Err(XInputPollError { slot: 3, code: 5 })
    );
}

#[test]
fn xinput_scan_lists_connected_slots() {
    let devices = scan_xinput_devices(&[false, true, false, true]);
    assert_eq!(devices.len(), 2);
    assert_eq!(devices[0].path, "xinput:1");
    assert_eq!(devices[1].path, "xinput:3");
    assert_eq!(devices[0].product, "XInput Controller");
    assert!(devices.iter().all(|d| d.is_xinput()));
    assert!(scan_xinput_devices(&[]).is_empty());
}

#[test]
fn xinput_axis_undoes_stick_conversion() {
    for raw in 0..=255u8 {
        let value = StickState::new(raw, 128).xinput_x() as i32;
        assert_eq!(raw_from_xinput_axis(value), raw);
    }
    assert_eq!(raw_from_xinput_axis(40_000), raw_from_xinput_axis(32_767));
    assert_eq!(raw_from_xinput_axis(i32::MIN), raw_from_xinput_axis(-32_768));
}

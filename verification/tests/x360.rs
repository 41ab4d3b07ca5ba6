use resonance_bhop::assist::{Buttons, ControllerState, DpadDirection, StickState};
use resonance_bhop::x360::{
    X360_A, X360_B, X360_BACK, X360_DPAD_LEFT, X360_DPAD_UP, X360_GUIDE, X360_LEFT_SHOULDER,
    X360_RIGHT_THUMB, X360_START, X360_Y, X360Output, map_to_x360_report,
};

#[test]
fn neutral_state_maps_to_an_empty_report() {
    let report = map_to_x360_report(ControllerState {
        left_stick: StickState::neutral(),
        right_stick: StickState::neutral(),
        ..ControllerState::default()
    });
    assert_eq!(
        report,
        X360Output {
            buttons: 0,
            left_trigger: 0,
            right_trigger: 0,
            thumb_lx: 0,
            thumb_ly: 0,
            thumb_rx: 0,
            thumb_ry: 0,
        }
    );
}

#[test]
fn buttons_map_by_position() {
    let state = ControllerState {
        left_stick: StickState::new(255, 0),
        right_stick: StickState::new(0, 255),
        l2: 10,
        r2: 250,
        dpad: DpadDirection::NorthWest,
        buttons: Buttons {
            cross: true,
            circle: true,
            triangle: true,
            l1: true,
            create: true,
            options: true,
            r3: true,
            ps: true,
            touchpad: true,
            mute: true,
            l2_button: true,
            ..Buttons::default()
        },
    };
    let report = map_to_x360_report(state);
    assert_eq!(
        report.buttons,
        X360_A | X360_B | X360_Y | X360_LEFT_SHOULDER | X360_BACK | X360_START | X360_RIGHT_THUMB
            | X360_GUIDE | X360_DPAD_UP | X360_DPAD_LEFT
    );
    assert_eq!(report.left_trigger, 10);
    assert_eq!(report.right_trigger, 250);
    assert_eq!(report.thumb_lx, i16::MAX);
    assert_eq!(report.thumb_ly, i16::MAX);
    assert_eq!(report.thumb_rx, i16::MIN);
    assert_eq!(report.thumb_ry, -32_767);
}

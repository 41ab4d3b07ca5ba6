use resonance_bhop::assist::{Buttons, ControllerState};
use resonance_bhop::calibration::{
    ButtonSource, ButtonTarget, CalibrationSession, CalibrationStep, CalibrationStore,
    DeviceCalibrationProfile, TriggerSide, TriggerSource, apply_device_calibration,
    button_source_value, default_left_trigger_source, default_right_trigger_source,
    detect_button_source, detect_trigger_source, device_calibration_key, is_capture_idle,
    supports_manual_calibration, trigger_source_value,
};
use resonance_bhop::dualsense::{ConnectionMode, InputBackend, InputDeviceInfo, InputSourceKind};

fn sample_device() -> InputDeviceInfo {
    InputDeviceInfo {
        path: "generic-device".to_owned(),
        source_kind: InputSourceKind::Hid,
        vendor_id: 0x046d,
        product_id: 0xc216,
        usage_page: 0x01,
        usage: 0x05,
        interface_number: 0,
        serial_number: None,
        manufacturer: "Logitech".to_owned(),
        product: "F310".to_owned(),
        backend: Some(InputBackend::GenericGamepad),
        connection_mode: ConnectionMode::Usb,
    }
}

fn circle_pressed() -> ControllerState {
    ControllerState {
        buttons: Buttons {
            circle: true,
            ..Buttons::default()
        },
        ..ControllerState::default()
    }
}

#[test]
fn calibration_can_swap_face_buttons() {
    let device = sample_device();
    let mut store = CalibrationStore::default();
    let mut profile = DeviceCalibrationProfile::new(&device);
    profile.set_button_source(ButtonTarget::Cross, ButtonSource::Circle);
    profile.set_button_source(ButtonTarget::Circle, ButtonSource::Cross);
    store.upsert(profile);

    let raw_state = circle_pressed();

    let calibrated = apply_device_calibration(&device, raw_state, &store);
    assert!(calibrated.buttons.cross);
    assert!(!calibrated.buttons.circle);
}

#[test]
fn trigger_calibration_can_use_digital_source() {
    let device = sample_device();
    let mut store = CalibrationStore::default();
    let mut profile = DeviceCalibrationProfile::new(&device);
    profile.set_trigger_source(TriggerSide::Left, TriggerSource::Button(ButtonSource::Circle));
    store.upsert(profile);

    let raw_state = circle_pressed();

    let calibrated = apply_device_calibration(&device, raw_state, &store);
    assert_eq!(calibrated.l2, 255);
    assert!(calibrated.buttons.l2_button);
}

#[test]
fn device_key_lists_identity_fields() {
    let device = sample_device();
    assert_eq!(
        device_calibration_key(&device),
        "Hid:046d:c216:0:-:Logitech:F310"
    );
    let mut with_serial = sample_device();
    with_serial.serial_number = Some("SN1".to_owned());
    with_serial.interface_number = -1;
    with_serial.source_kind = InputSourceKind::XInput;
    assert_eq!(
        device_calibration_key(&with_serial),
        "XInput:046d:c216:-1:SN1:Logitech:F310"
    );
}

#[test]
fn uncalibrated_device_passes_through() {
    let device = sample_device();
    let store = CalibrationStore::default();
    let raw = ControllerState {
        l2: 99,
        ..circle_pressed()
    };
    assert_eq!(apply_device_calibration(&device, raw, &store), raw);
}

#[test]
fn fresh_profile_is_identity() {
    let device = sample_device();
    let profile = DeviceCalibrationProfile::new(&device);
    assert_eq!(profile.device_key, device_calibration_key(&device));
    assert_eq!(profile.device_name, "F310 (Logitech)");
    assert_eq!(profile.left_trigger, TriggerSource::LeftTrigger);
    assert_eq!(profile.right_trigger, TriggerSource::RightTrigger);
    assert_eq!(default_left_trigger_source(), TriggerSource::LeftTrigger);
    assert_eq!(default_right_trigger_source(), TriggerSource::RightTrigger);

    let mut store = CalibrationStore::default();
    store.upsert(profile);
    let raw = ControllerState {
        l2: 40,
        r2: 10,
        buttons: Buttons {
            square: true,
            r3: true,
            ..Buttons::default()
        },
        ..ControllerState::default()
    };
    let out = apply_device_calibration(&device, raw, &store);
    assert!(out.buttons.square && out.buttons.r3 && !out.buttons.circle);
    assert_eq!(out.l2, 40);
    assert_eq!(out.r2, 10);
    assert!(out.buttons.l2_button);
    assert!(!out.buttons.r2_button);
}

#[test]
fn upsert_replaces_and_reset_removes() {
    let device = sample_device();
    let mut other = sample_device();
    other.product = "F710".to_owned();
    let mut store = CalibrationStore::default();
    store.upsert(DeviceCalibrationProfile::new(&device));
    store.upsert(DeviceCalibrationProfile::new(&other));
    let mut changed = DeviceCalibrationProfile::new(&device);
    changed.set_trigger_source(TriggerSide::Right, TriggerSource::Unassigned);
    store.upsert(changed.clone());
    assert_eq!(store.devices.len(), 2);
    assert_eq!(store.profile_for(&device), Some(&changed));
    assert_eq!(store.profile_or_default(&device), changed);

    store.reset_for(&device);
    assert_eq!(store.devices.len(), 1);
    assert!(store.profile_for(&device).is_none());
    assert!(store.profile_for(&other).is_some());
    assert_eq!(
        store.profile_or_default(&device),
        DeviceCalibrationProfile::new(&device)
    );
}

#[test]
fn unassigned_trigger_reads_zero() {
    let state = ControllerState {
        l2: 200,
        ..circle_pressed()
    };
    assert_eq!(trigger_source_value(state, TriggerSource::Unassigned), 0);
    assert_eq!(trigger_source_value(state, TriggerSource::LeftTrigger), 200);
    assert_eq!(trigger_source_value(state, TriggerSource::RightTrigger), 0);
    assert_eq!(
        trigger_source_value(state, TriggerSource::Button(ButtonSource::Cross)),
        0
    );
    assert!(button_source_value(state.buttons, ButtonSource::Circle));
    assert!(!button_source_value(state.buttons, ButtonSource::Touchpad));
}

#[test]
fn capture_idle_needs_released_controls() {
    assert!(is_capture_idle(ControllerState::default()));
    assert!(!is_capture_idle(circle_pressed()));
    assert!(!is_capture_idle(ControllerState {
        r2: 30,
        ..ControllerState::default()
    }));
    assert!(is_capture_idle(ControllerState {
        r2: 29,
        ..ControllerState::default()
    }));
    let mute_only = ControllerState {
        buttons: Buttons {
            mute: true,
            ..Buttons::default()
        },
        ..ControllerState::default()
    };
    assert!(is_capture_idle(mute_only));
}

#[test]
fn button_detection_takes_first_new_press_in_scan_order() {
    let baseline = circle_pressed();
    let current = ControllerState {
        buttons: Buttons {
            circle: true,
            cross: true,
            touchpad: true,
            ..Buttons::default()
        },
        ..ControllerState::default()
    };
    assert_eq!(detect_button_source(baseline, current), Some(ButtonSource::Cross));
    assert_eq!(detect_button_source(baseline, baseline), None);
    let square = ControllerState {
        buttons: Buttons {
            square: true,
            cross: true,
            ..Buttons::default()
        },
        ..ControllerState::default()
    };
    assert_eq!(
        detect_button_source(ControllerState::default(), square),
        Some(ButtonSource::Square)
    );
}

#[test]
fn trigger_detection_prefers_larger_analog_change() {
    let baseline = ControllerState {
        l2: 10,
        r2: 200,
        ..ControllerState::default()
    };
    let left = ControllerState {
        l2: 46,
        ..baseline
    };
    assert_eq!(detect_trigger_source(baseline, left), Some(TriggerSource::LeftTrigger));
    let right = ControllerState {
        l2: 50,
        r2: 100,
        ..baseline
    };
    assert_eq!(detect_trigger_source(baseline, right), Some(TriggerSource::RightTrigger));
    let small = ControllerState {
        l2: 45,
        ..baseline
    };
    assert_eq!(detect_trigger_source(baseline, small), None);
    let equal = ControllerState {
        l2: 46,
        r2: 164,
        ..baseline
    };
    assert_eq!(detect_trigger_source(baseline, equal), Some(TriggerSource::LeftTrigger));
    let digital = ControllerState {
        buttons: Buttons {
            l1: true,
            ..Buttons::default()
        },
        ..baseline
    };
    assert_eq!(
        detect_trigger_source(baseline, digital),
        Some(TriggerSource::Button(ButtonSource::L1))
    );
}

#[test]
fn calibration_steps_in_order() {
    assert_eq!(CalibrationStep::at(0), Some(CalibrationStep::Button(ButtonTarget::Cross)));
    assert_eq!(CalibrationStep::at(6), Some(CalibrationStep::Trigger(TriggerSide::Left)));
    assert_eq!(CalibrationStep::at(11), Some(CalibrationStep::Button(ButtonTarget::R3)));
    assert_eq!(CalibrationStep::at(12), None);
}

#[test]
fn manual_calibration_needs_a_backend() {
    let device = sample_device();
    assert!(supports_manual_calibration(&device));
    let mut unknown = sample_device();
    unknown.backend = None;
    assert!(!supports_manual_calibration(&unknown));
}

#[test]
fn calibration_session_walks_all_steps() {
    let device = sample_device();
    let mut store = CalibrationStore::default();
    let mut session = CalibrationSession::new(&device, &store, ControllerState::default());
    assert_eq!(session.current_step(), Some(CalibrationStep::Button(ButtonTarget::Cross)));
    assert!(!session.waiting_for_idle);
    assert!(session.is_for(&device));

    let idle = ControllerState::default();
    let press = |buttons: Buttons, l2: u8, r2: u8| ControllerState {
        buttons,
        l2,
        r2,
        ..ControllerState::default()
    };
    let steps = [
        press(Buttons { circle: true, ..Buttons::default() }, 0, 0),
        press(Buttons { cross: true, ..Buttons::default() }, 0, 0),
        press(Buttons { square: true, ..Buttons::default() }, 0, 0),
        press(Buttons { triangle: true, ..Buttons::default() }, 0, 0),
        press(Buttons { l1: true, ..Buttons::default() }, 0, 0),
        press(Buttons { r1: true, ..Buttons::default() }, 0, 0),
        press(Buttons::default(), 0, 200),
        press(Buttons::default(), 200, 0),
        press(Buttons { create: true, ..Buttons::default() }, 0, 0),
        press(Buttons { options: true, ..Buttons::default() }, 0, 0),
        press(Buttons { l3: true, ..Buttons::default() }, 0, 0),
        press(Buttons { r3: true, ..Buttons::default() }, 0, 0),
    ];
    for (i, state) in steps.iter().enumerate() {
        assert!(!session.advance(Some(&device), *state, &mut store));
        assert_eq!(session.step_index, i + 1);
        assert!(session.waiting_for_idle);
        if i + 1 < steps.len() {
            assert!(!session.advance(Some(&device), idle, &mut store));
            assert!(!session.waiting_for_idle);
        }
    }
    assert_eq!(session.current_step(), None);
    assert!(store.devices.is_empty());
    assert!(session.advance(Some(&device), steps[11], &mut store));
    assert_eq!(store.devices.len(), 1);

    let swapped = apply_device_calibration(&device, press(Buttons { circle: true, ..Buttons::default() }, 0, 0), &store);
    assert!(swapped.buttons.cross);
    assert!(!swapped.buttons.circle);
    let triggers = apply_device_calibration(&device, press(Buttons::default(), 0, 77), &store);
    assert_eq!(triggers.l2, 77);
    assert_eq!(triggers.r2, 0);
}

#[test]
fn calibration_session_ignores_other_devices_and_waits_for_release() {
    let device = sample_device();
    let mut other = sample_device();
    other.path = "other".to_owned();
    other.product_id = 0x0001;
    let mut store = CalibrationStore::default();
    let mut session = CalibrationSession::new(&device, &store, circle_pressed());
    assert!(session.waiting_for_idle);
    assert!(!session.advance(Some(&other), ControllerState::default(), &mut store));
    assert!(session.waiting_for_idle);
    assert!(!session.advance(None, ControllerState::default(), &mut store));
    assert!(session.waiting_for_idle);
    assert!(!session.advance(Some(&device), circle_pressed(), &mut store));
    assert!(session.waiting_for_idle);
    assert!(!session.advance(Some(&device), ControllerState::default(), &mut store));
    assert!(!session.waiting_for_idle);
    assert_eq!(session.step_index, 0);
}

#[test]
fn repeated_upsert_changes_nothing() {
    let device = sample_device();
    let mut other = sample_device();
    other.product = "F710".to_owned();
    let mut store = CalibrationStore::default();
    store.upsert(DeviceCalibrationProfile::new(&other));
    let mut profile = DeviceCalibrationProfile::new(&device);
    profile.set_button_source(ButtonTarget::L1, ButtonSource::R1);
    store.upsert(profile.clone());
    assert_eq!(store.devices.len(), 2);
    assert_eq!(store.devices[1], profile);
    let before = store.clone();
    store.upsert(profile);
    assert_eq!(store, before);
}

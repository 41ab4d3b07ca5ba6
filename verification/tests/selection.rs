use resonance_bhop::assist::JumpButton;
use resonance_bhop::dualsense::{
    ConnectionMode, DUALSENSE_PRODUCT_ID, DUALSHOCK4_PRODUCT_ID, HidDeviceRecord, InputBackend,
    InputDeviceInfo, InputSourceKind, NINTENDO_VENDOR_ID, SONY_VENDOR_ID, SWITCH_PRO_PRODUCT_ID,
};
use resonance_bhop::preferences::{
    SettingsPathError, current_detected_device, jump_button_choices,
    sanitize_preferred_device_path, settings_file_path,
};
use resonance_bhop::selection::{
    SelectionPlan, best_match_position, device_comes_before, order_device_list,
    plan_input_device_selection, position_of_path, scan_input_devices, sort_device_entries,
    supported_input_devices,
};

fn record(path: &str, vendor_id: u16, product_id: u16, usage_page: u16, usage: u16) -> HidDeviceRecord {
    HidDeviceRecord {
        path: path.to_owned(),
        vendor_id,
        product_id,
        usage_page,
        usage,
        interface_number: 0,
        serial_number: None,
        manufacturer: Some("Maker".to_owned()),
        product: Some("Pad".to_owned()),
    }
}

fn paths(devices: &[InputDeviceInfo]) -> Vec<&str> {
    devices.iter().map(|d| d.path.as_str()).collect()
}

fn sample_records() -> Vec<HidDeviceRecord> {
    vec![
        record("z-generic", 0x1234, 0x0001, 0x01, 0x05),
        record("b-dualsense-vendor", SONY_VENDOR_ID, DUALSENSE_PRODUCT_ID, 0xff00, 0x01),
        record("a-dualsense", SONY_VENDOR_ID, DUALSENSE_PRODUCT_ID, 0x01, 0x05),
        record("mouse", 0x1234, 0x0002, 0x01, 0x02),
        record("c-dualsense", SONY_VENDOR_ID, DUALSENSE_PRODUCT_ID, 0x01, 0x05),
        record("joystick", 0x1234, 0x0003, 0x01, 0x04),
    ]
}

#[test]
fn supported_devices_come_in_priority_then_path_order() {
    let supported = supported_input_devices(&sample_records());
    assert_eq!(
        paths(&supported),
        vec!["a-dualsense", "c-dualsense", "b-dualsense-vendor", "z-generic", "joystick"]
    );
}

#[test]
fn scan_lists_in_priority_label_and_path_order() {
    let mut records = sample_records();
    records.push(record("other-sony", SONY_VENDOR_ID, 0x0999, 0xff00, 0x01));
    let listed = scan_input_devices(&records);
    assert_eq!(
        paths(&listed),
        vec!["a-dualsense", "c-dualsense", "b-dualsense-vendor", "z-generic", "joystick", "other-sony"]
    );
    assert!(!listed[5].is_supported());
}

#[test]
fn labels_break_priority_ties_in_the_list() {
    let mut first = record("b", 0x1111, 0x0001, 0x01, 0x05);
    first.product = Some("Alpha".to_owned());
    let mut second = record("a", 0x2222, 0x0001, 0x01, 0x05);
    second.product = Some("Beta".to_owned());
    let listed = scan_input_devices(&[second.clone(), first.clone()]);
    assert_eq!(paths(&listed), vec!["b", "a"]);
    let supported = supported_input_devices(&[second, first]);
    assert_eq!(paths(&supported), vec!["a", "b"]);
}

#[test]
fn equal_entries_keep_their_order() {
    let a = InputDeviceInfo::from_hid(&record("same", 0x1234, 0x0001, 0x01, 0x05));
    let mut b = a.clone();
    b.serial_number = Some("second".to_owned());
    let sorted = sort_device_entries(vec![a.clone(), b.clone()], true);
    assert_eq!(sorted, vec![a.clone(), b.clone()]);
    let sorted = sort_device_entries(vec![b.clone(), a.clone()], false);
    assert_eq!(sorted, vec![b, a]);
}

#[test]
fn inventory_puts_xinput_entries_after_supported_devices() {
    let hid = InputDeviceInfo::from_hid(&record("pad", 0x1234, 0x0001, 0x01, 0x05));
    let xinput = InputDeviceInfo::xinput(0, "XInput Controller");
    let ordered = order_device_list(vec![xinput.clone(), hid.clone()]);
    assert_eq!(ordered, vec![hid.clone(), xinput.clone()]);
    assert!(device_comes_before(&hid, &xinput, true));
    assert!(!device_comes_before(&xinput, &hid, true));
    assert!(!device_comes_before(&hid, &hid, false));
}

#[test]
fn no_supported_device_plans_nothing() {
    let plan = plan_input_device_selection(&[record("mouse", 1, 2, 0x01, 0x02)], None, None);
    assert!(matches!(plan, SelectionPlan::NoDevices));
}

#[test]
fn selected_path_is_opened() {
    let plan = plan_input_device_selection(&sample_records(), Some("joystick"), None);
    match plan {
        SelectionPlan::OpenSelected(device) => {
            assert_eq!(device.path, "joystick");
            assert_eq!(device.backend, Some(InputBackend::GenericJoystick));
        }
        other => panic!("unexpected plan: {other:?}"),
    }
}

#[test]
fn missing_selection_reopens_the_remembered_device() {
    let remembered = InputDeviceInfo::from_hid(&record("old-path", 0x1234, 0x0003, 0x01, 0x04));
    let plan = plan_input_device_selection(&sample_records(), Some("old-path"), Some(&remembered));
    match plan {
        SelectionPlan::ReopenRemembered(device) => assert_eq!(device.path, "joystick"),
        other => panic!("unexpected plan: {other:?}"),
    }
    let stranger = InputDeviceInfo::from_hid(&record("x", 0x4321, 0x0001, 0x01, 0x05));
    let plan = plan_input_device_selection(&sample_records(), Some("old-path"), Some(&stranger));
    match plan {
        SelectionPlan::TryInOrder(devices) => assert_eq!(devices[0].path, "a-dualsense"),
        other => panic!("unexpected plan: {other:?}"),
    }
}

#[test]
fn automatic_choice_tries_the_remembered_device_first() {
    let remembered = InputDeviceInfo::from_hid(&record("gone", 0x1234, 0x0001, 0x01, 0x05));
    let plan = plan_input_device_selection(&sample_records(), None, Some(&remembered));
    match plan {
        SelectionPlan::TryInOrder(devices) => assert_eq!(
            paths(&devices),
            vec!["z-generic", "a-dualsense", "c-dualsense", "b-dualsense-vendor", "joystick"]
        ),
        other => panic!("unexpected plan: {other:?}"),
    }
    let plan = plan_input_device_selection(&sample_records(), None, None);
    match plan {
        SelectionPlan::TryInOrder(devices) => assert_eq!(
            paths(&devices),
            vec!["a-dualsense", "c-dualsense", "b-dualsense-vendor", "z-generic", "joystick"]
        ),
        other => panic!("unexpected plan: {other:?}"),
    }
}

#[test]
fn best_match_takes_the_last_of_equal_scores() {
    let records = sample_records();
    let supported = supported_input_devices(&records);
    let reference = InputDeviceInfo::from_hid(&record("gone", SONY_VENDOR_ID, DUALSENSE_PRODUCT_ID, 0x01, 0x05));
    assert_eq!(best_match_position(&supported, &reference), Some(1));
    let vendor_interface =
        InputDeviceInfo::from_hid(&record("gone", SONY_VENDOR_ID, DUALSENSE_PRODUCT_ID, 0xff00, 0x01));
    assert_eq!(best_match_position(&supported, &vendor_interface), Some(2));
    assert_eq!(position_of_path(&supported, "joystick"), Some(4));
    assert_eq!(position_of_path(&supported, "nothing"), None);
}

#[test]
fn switch_pro_is_a_candidate() {
    let plan = plan_input_device_selection(
        &[record("pro", NINTENDO_VENDOR_ID, SWITCH_PRO_PRODUCT_ID, 0x01, 0x05)],
        None,
        None,
    );
    match plan {
        SelectionPlan::TryInOrder(devices) => {
            assert_eq!(devices.len(), 1);
            assert_eq!(devices[0].backend, Some(InputBackend::NintendoSwitchPro));
            assert_eq!(devices[0].connection_mode, ConnectionMode::Usb);
        }
        other => panic!("unexpected plan: {other:?}"),
    }
}

#[test]
fn xinput_paths_are_not_remembered() {
    assert_eq!(sanitize_preferred_device_path(Some("xinput:0".to_owned())), None);
    assert_eq!(
        sanitize_preferred_device_path(Some("hid-path".to_owned())),
        Some("hid-path".to_owned())
    );
    assert_eq!(sanitize_preferred_device_path(None), None);
    assert_eq!(
        sanitize_preferred_device_path(Some("xinput".to_owned())),
        Some("xinput".to_owned())
    );
}

#[test]
fn jump_button_choices_name_both_layouts() {
    let choices = jump_button_choices();
    assert_eq!(choices.len(), 14);
    assert_eq!(choices[0], (JumpButton::Cross, "A / Cross"));
    assert_eq!(choices[1], (JumpButton::Circle, "B / Circle"));
    assert_eq!(choices[6], (JumpButton::L2Button, "LT / L2"));
    assert_eq!(choices[13], (JumpButton::Ps, "PS / Home"));
    for button in JumpButton::all() {
        assert_eq!(choices.iter().filter(|(b, _)| *b == button).count(), 1);
    }
}

#[test]
fn detected_device_prefers_active_then_preferred_then_supported() {
    let xinput = InputDeviceInfo::xinput(0, "XInput Controller");
    let pad = InputDeviceInfo::from_hid(&record("pad", SONY_VENDOR_ID, DUALSHOCK4_PRODUCT_ID, 0x01, 0x05));
    let available = vec![xinput.clone(), pad.clone()];
    let active = InputDeviceInfo {
        path: "active".to_owned(),
        source_kind: InputSourceKind::Hid,
        ..pad.clone()
    };
    assert_eq!(current_detected_device(Some(&active), &available, Some("pad")), Some(&active));
    assert_eq!(current_detected_device(None, &available, Some("xinput:0")), Some(&xinput));
    assert_eq!(current_detected_device(None, &available, Some("missing")), None);
    assert_eq!(current_detected_device(None, &available, None), Some(&pad));
    assert_eq!(current_detected_device(None, &vec![xinput.clone()], None), None);
}

#[test]
fn settings_path_prefers_appdata() {
    assert_eq!(
        settings_file_path(Some("C:/Users/a/AppData"), Some("D:/work")),
        Ok(vec![
            "C:/Users/a/AppData".to_owned(),
            "resonance-bhop".to_owned(),
            "settings.toml".to_owned()
        ])
    );
    assert_eq!(
        settings_file_path(None, Some("D:/work")),
        Ok(vec!["D:/work".to_owned(), "resonance-bhop".to_owned(), "settings.toml".to_owned()])
    );
    assert_eq!(
        settings_file_path(None, None),
        Err(SettingsPathError::NoBaseDirectory)
    );
}

#[test]
fn stale_selection_without_remembered_device_falls_back_to_best_device() {
    let mut secondary = record("secondary", SONY_VENDOR_ID, DUALSENSE_PRODUCT_ID, 0xff00, 0x0001);
    secondary.path = "secondary".to_owned();
    let primary = record("primary", SONY_VENDOR_ID, DUALSENSE_PRODUCT_ID, 0x01, 0x05);
    let plan = plan_input_device_selection(&[secondary, primary], Some("missing"), None);
    match plan {
        SelectionPlan::TryInOrder(devices) => {
            assert_eq!(paths(&devices), vec!["primary", "secondary"]);
        }
        other => panic!("unexpected plan: {other:?}"),
    }
}

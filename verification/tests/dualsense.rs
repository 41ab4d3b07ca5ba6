use resonance_bhop::assist::DpadDirection;
use resonance_bhop::dualsense::{
    ConnectionMode, DUALSENSE_EDGE_PRODUCT_ID, DUALSENSE_PRODUCT_ID, DUALSHOCK4_PRODUCT_ID,
    DUALSHOCK4_V2_PRODUCT_ID, HidDeviceRecord, InputBackend, InputDeviceInfo, InputParser,
    InputSourceKind, MICROSOFT_VENDOR_ID, NINTENDO_VENDOR_ID, ParserBuildError,
    SONY_VENDOR_ID, SWITCH_INPUT_REPORT_MODE_FULL, SWITCH_PRO_PRODUCT_ID, SWITCH_SUBCOMMAND_ACK_NOP,
    SWITCH_SUBCOMMAND_REPORT_ID, SWITCH_SUBCOMMAND_SET_INPUT_REPORT_MODE, SWITCH_USB_BAUD_RATE,
    SWITCH_USB_DISABLE_TIMEOUT, SWITCH_USB_HANDSHAKE, SWITCH_USB_OUTPUT_REPORT_LEN,
    SWITCH_USB_REPORT_ID, SWITCH_USB_SUBCOMMAND_HEADER, SWITCH_USB_SUBCOMMAND_WRAPPER,
    XBOX360_WINDOWS_PRODUCT_ID, backend_for, build_switch_usb_subcommand_report,
    infer_connection_mode, input_priority, invert_switch_axis_byte, needs_switch_pro_usb_init,
    pad_switch_usb_report, parse_dualsense_input_report, parse_nintendo_switch_full_input_report,
    parse_nintendo_switch_input_report, scale_axis_12_to_byte, should_ignore_device_identity,
    should_list, sticky_match_score, switch_pro_usb_init_reports,
};
use resonance_bhop::generic_hid::{GenericHidParser, GenericParserError};

const NEUTRAL_RUMBLE: [u8; 8] = [0x00, 0x01, 0x40, 0x40, 0x00, 0x01, 0x40, 0x40];

fn usb_device(product_id: u16) -> InputDeviceInfo {
    InputDeviceInfo {
        path: "usb".to_owned(),
        source_kind: InputSourceKind::Hid,
        vendor_id: SONY_VENDOR_ID,
        product_id,
        usage_page: 0x01,
        usage: 0x05,
        interface_number: 0,
        serial_number: Some("sony-pad-1".to_owned()),
        manufacturer: "Sony".to_owned(),
        product: "Wireless Controller".to_owned(),
        backend: match product_id {
            DUALSENSE_EDGE_PRODUCT_ID => Some(InputBackend::DualSenseEdge),
            DUALSHOCK4_PRODUCT_ID => Some(InputBackend::DualShock4),
            DUALSHOCK4_V2_PRODUCT_ID => Some(InputBackend::DualShock4V2),
            _ => Some(InputBackend::DualSense),
        },
        connection_mode: ConnectionMode::Usb,
    }
}

fn bluetooth_device(product_id: u16) -> InputDeviceInfo {
    InputDeviceInfo {
        path: "bth".to_owned(),
        connection_mode: ConnectionMode::Bluetooth,
        ..usb_device(product_id)
    }
}

fn record(path: &str, vendor_id: u16, product_id: u16, usage_page: u16, usage: u16) -> HidDeviceRecord {
    HidDeviceRecord {
        path: path.to_owned(),
        vendor_id,
        product_id,
        usage_page,
        usage,
        interface_number: 0,
        serial_number: None,
        manufacturer: None,
        product: None,
    }
}

fn dualsense_parser(connection_mode: ConnectionMode) -> InputParser {
    InputParser::SonyDualSense { connection_mode }
}

#[test]
fn primary_input_interface_is_preferred() {
    let mut primary = usb_device(DUALSENSE_PRODUCT_ID);
    primary.path = "primary".to_owned();
    primary.usage_page = 0x01;
    primary.usage = 0x05;

    let mut secondary = usb_device(DUALSENSE_PRODUCT_ID);
    secondary.path = "secondary".to_owned();
    secondary.usage_page = 0xff00;
    secondary.usage = 0x0001;

    assert!(input_priority(&primary) > input_priority(&secondary));
    assert!(primary.is_primary_input_interface());
    assert!(!secondary.is_primary_input_interface());
}

#[test]
fn stale_preferred_path_falls_back_to_best_available_device() {
    let mut primary = usb_device(DUALSENSE_PRODUCT_ID);
    primary.path = "primary".to_owned();
    primary.usage_page = 0x01;
    primary.usage = 0x05;

    let mut secondary = usb_device(DUALSENSE_PRODUCT_ID);
    secondary.path = "secondary".to_owned();
    secondary.usage_page = 0xff00;
    secondary.usage = 0x0001;

    let supported = vec![secondary.clone(), primary.clone()];
    let selected = Some("missing")
        .and_then(|path| supported.iter().find(|info| info.path == path).cloned())
        .or_else(|| {
            supported.into_iter().max_by(|a, b| {
                input_priority(a)
                    .cmp(&input_priority(b))
                    .then_with(|| b.path.cmp(&a.path))
            })
        });

    assert_eq!(selected, Some(primary));
}

#[test]
fn parses_neutral_usb_report() {
    let report = [
        0x01, 0x7e, 0x81, 0x84, 0x84, 0x00, 0x00, 0x4b, 0x08, 0x00, 0x00, 0x00,
    ];
    let parsed = dualsense_parser(ConnectionMode::Usb)
        .parse_report(&report)
        .expect("report should parse");
    assert_eq!(parsed.left_stick.raw_x, 0x7e);
    assert_eq!(parsed.left_stick.raw_y, 0x81);
    assert_eq!(parsed.l2, 0);
    assert_eq!(parsed.r2, 0);
    assert_eq!(parsed.dpad, DpadDirection::Neutral);
    assert!(!parsed.buttons.cross);
}

#[test]
fn parses_cross_usb_report() {
    let report = [
        0x01, 0x80, 0x80, 0x80, 0x80, 0x00, 0x00, 0x00, 0x28, 0x00, 0x00, 0x00,
    ];
    let parsed = dualsense_parser(ConnectionMode::Usb)
        .parse_report(&report)
        .expect("report should parse");
    assert!(parsed.buttons.cross);
    assert!(!parsed.buttons.circle);
}

#[test]
fn parses_circle_bluetooth_raw_report() {
    let report = [
        0x31, 0x01, 0x80, 0x80, 0x80, 0x80, 0x00, 0x00, 0x00, 0x48, 0x00, 0x00,
    ];
    let parsed = dualsense_parser(ConnectionMode::Bluetooth)
        .parse_report(&report)
        .expect("raw bluetooth report should parse");
    assert!(parsed.buttons.circle);
    assert!(!parsed.buttons.cross);
}

#[test]
fn parses_compact_bluetooth_report() {
    let report = [0x01, 0x7d, 0x7e, 0x83, 0x82, 0x08, 0x00, 0x00, 0x00, 0x00];
    let parsed = dualsense_parser(ConnectionMode::Bluetooth)
        .parse_report(&report)
        .expect("compact bluetooth report should parse");
    assert_eq!(parsed.left_stick.raw_x, 0x7d);
    assert_eq!(parsed.left_stick.raw_y, 0x7e);
    assert_eq!(parsed.dpad, DpadDirection::Neutral);
}

#[test]
fn parses_dualsense_edge_using_same_layout() {
    let report = [
        0x01, 0x80, 0x80, 0x80, 0x80, 0x00, 0x00, 0x00, 0x48, 0x00, 0x00, 0x00,
    ];
    let parsed = dualsense_parser(ConnectionMode::Usb)
        .parse_report(&report)
        .expect("edge report should parse");
    assert!(parsed.buttons.circle);
    assert!(!parsed.buttons.cross);
}

#[test]
fn generic_layout_parses_axes_buttons_and_hat() {
    let descriptor = [
        0x05, 0x01, 0x09, 0x05, 0xA1, 0x01, 0x15, 0x00, 0x26, 0xFF, 0x00, 0x75, 0x08, 0x95, 0x04,
        0x09, 0x30, 0x09, 0x31, 0x09, 0x33, 0x09, 0x34, 0x81, 0x02, 0x95, 0x02, 0x09, 0x32, 0x09,
        0x35, 0x81, 0x02, 0x05, 0x01, 0x15, 0x00, 0x25, 0x07, 0x75, 0x04, 0x95, 0x01, 0x09, 0x39,
        0x81, 0x42, 0x05, 0x09, 0x15, 0x00, 0x25, 0x01, 0x75, 0x01, 0x95, 0x0A, 0x19, 0x01, 0x29,
        0x0A, 0x81, 0x02, 0x75, 0x01, 0x95, 0x02, 0x81, 0x03, 0xC0,
    ];

    let parser = GenericHidParser::from_descriptor(&descriptor).expect("descriptor should parse");
    assert_eq!(parser.layouts.len(), 1, "one input report expected");
    let layout = &parser.layouts[0];

    let report = [0x20, 0xE0, 0x80, 0x10, 0x40, 0x03, 0b0011_0011, 0b0001_0000];
    let state = layout.parse(&report).expect("report should parse");

    assert_eq!(state.left_stick.raw_x, 0x20);
    assert_eq!(state.left_stick.raw_y, 0xE0);
    assert_eq!(state.right_stick.raw_x, 0x80);
    assert_eq!(state.right_stick.raw_y, 0x10);
    assert_eq!(state.l2, 0x40);
    assert_eq!(state.r2, 0x03);
    assert_eq!(state.dpad, DpadDirection::SouthEast);
    assert!(state.buttons.cross);
    assert!(state.buttons.circle);
    assert!(state.buttons.create);
    assert!(!state.buttons.options);
}

#[test]
fn generic_layout_accepts_report_id_prefixed_payloads() {
    let descriptor = [
        0x05, 0x01, 0x09, 0x05, 0xA1, 0x01, 0x85, 0x01, 0x15, 0x00, 0x26, 0xFF, 0x00, 0x75, 0x08,
        0x95, 0x02, 0x09, 0x30, 0x09, 0x31, 0x81, 0x02, 0x05, 0x09, 0x15, 0x00, 0x25, 0x01, 0x75,
        0x01, 0x95, 0x04, 0x19, 0x01, 0x29, 0x04, 0x81, 0x02, 0x75, 0x01, 0x95, 0x04, 0x81, 0x03,
        0xC0,
    ];

    let parser = GenericHidParser::from_descriptor(&descriptor).expect("descriptor should parse");
    assert_eq!(parser.layouts.len(), 1, "one input report expected");
    let layout = &parser.layouts[0];

    let report = [0x01, 0x55, 0xAA, 0b0000_0101];
    let state = layout.parse(&report).expect("report should parse");

    assert_eq!(state.left_stick.raw_x, 0x55);
    assert_eq!(state.left_stick.raw_y, 0xAA);
    assert!(state.buttons.cross);
    assert!(state.buttons.square);
    assert!(!state.buttons.circle);
}

#[test]
fn generic_devices_are_marked_supported() {
    let device = InputDeviceInfo {
        path: "generic".to_owned(),
        source_kind: InputSourceKind::Hid,
        vendor_id: 0x1234,
        product_id: 0x5678,
        usage_page: 0x01,
        usage: 0x05,
        interface_number: 1,
        serial_number: None,
        manufacturer: "Test".to_owned(),
        product: "Arcade Pad".to_owned(),
        backend: Some(InputBackend::GenericGamepad),
        connection_mode: ConnectionMode::Usb,
    };

    assert!(device.is_supported());
    assert_eq!(device.backend_label(), "Generic Gamepad USB");
}

#[test]
fn bluetooth_device_metadata_is_preserved() {
    let device = bluetooth_device(DUALSHOCK4_V2_PRODUCT_ID);
    assert_eq!(device.connection_mode, ConnectionMode::Bluetooth);
    assert_eq!(device.backend, Some(InputBackend::DualShock4V2));
    assert_eq!(device.product_label(), "DualShock 4");
}

#[test]
fn sticky_match_prefers_same_device_identity() {
    let reference = usb_device(DUALSHOCK4_V2_PRODUCT_ID);

    let mut same_device = reference.clone();
    same_device.path = "usb-2".to_owned();

    let mut other_device = reference.clone();
    other_device.path = "usb-3".to_owned();
    other_device.serial_number = Some("other-pad".to_owned());

    assert!(sticky_match_score(&same_device, &reference).is_some());
    assert!(sticky_match_score(&other_device, &reference).is_none());
}

#[test]
fn parses_switch_pro_bluetooth_full_report() {
    let report = [
        0x30, 0xE3, 0x91, 0x00, 0x80, 0x00, 0xCF, 0xF7, 0x76, 0x9C, 0x27, 0x7B,
    ];

    let parsed = parse_nintendo_switch_full_input_report(&report)
        .expect("switch pro bluetooth report should parse");

    assert_eq!(parsed.dpad, DpadDirection::Neutral);
    assert!(!parsed.buttons.cross);
    assert!(!parsed.buttons.circle);
    assert!(!parsed.buttons.square);
    assert!(!parsed.buttons.triangle);
}

#[test]
fn parses_switch_pro_face_buttons_by_position() {
    let report = [
        0x30, 0x01, 0x91, 0x0F, 0x03, 0xCA, 0x00, 0x80, 0x80, 0x00, 0x80, 0x80,
    ];

    let parsed = parse_nintendo_switch_full_input_report(&report)
        .expect("custom switch report should parse");

    assert!(parsed.buttons.square);
    assert!(parsed.buttons.triangle);
    assert!(parsed.buttons.cross);
    assert!(parsed.buttons.circle);
    assert!(parsed.buttons.create);
    assert!(parsed.buttons.options);
    assert!(parsed.buttons.l1);
    assert!(parsed.buttons.l2_button);
    assert_eq!(parsed.l2, 255);
    assert_eq!(parsed.dpad, DpadDirection::NorthWest);
}

#[test]
fn parses_switch_pro_usb_full_report_before_generic_fallback() {
    let report = [
        0x30, 0x01, 0x91, 0x0F, 0x03, 0xCA, 0x00, 0x80, 0x80, 0x00, 0x80, 0x80,
    ];
    let generic = GenericHidParser { layouts: Vec::new() };

    let parsed = parse_nintendo_switch_input_report(ConnectionMode::Usb, &generic, &report)
        .expect("usb switch pro report should parse via the dedicated parser");

    assert!(parsed.buttons.cross);
    assert_eq!(parsed.dpad, DpadDirection::NorthWest);
}

#[test]
fn builds_switch_pro_usb_mode_report_with_full_input_request() {
    let report = build_switch_usb_subcommand_report(
        7,
        SWITCH_SUBCOMMAND_SET_INPUT_REPORT_MODE,
        &[SWITCH_INPUT_REPORT_MODE_FULL],
    );

    assert_eq!(report[0], SWITCH_USB_REPORT_ID);
    assert_eq!(report[1], SWITCH_USB_SUBCOMMAND_WRAPPER);
    assert_eq!(report[3], SWITCH_USB_SUBCOMMAND_HEADER);
    assert_eq!(report[8], SWITCH_SUBCOMMAND_REPORT_ID);
    assert_eq!(report[9], 7);
    assert_eq!(&report[10..18], &NEUTRAL_RUMBLE);
    assert_eq!(report[18], SWITCH_SUBCOMMAND_SET_INPUT_REPORT_MODE);
    assert_eq!(report[19], SWITCH_INPUT_REPORT_MODE_FULL);
}

#[test]
fn pads_switch_usb_reports_to_fixed_output_size() {
    let report = pad_switch_usb_report(&[SWITCH_USB_REPORT_ID, SWITCH_USB_HANDSHAKE]);

    assert_eq!(report.len(), SWITCH_USB_OUTPUT_REPORT_LEN);
    assert_eq!(report[0], SWITCH_USB_REPORT_ID);
    assert_eq!(report[1], SWITCH_USB_HANDSHAKE);
    assert!(report[2..].iter().all(|byte| *byte == 0));
}

#[test]
fn inverts_switch_y_axes_to_match_existing_controller_convention() {
    assert_eq!(invert_switch_axis_byte(0), 255);
    assert_eq!(invert_switch_axis_byte(128), 127);
    assert_eq!(invert_switch_axis_byte(255), 0);
}

#[test]
fn infers_switch_pro_usb_when_windows_hid_path_lacks_usb_marker() {
    let path = r"\\?\HID#VID_057E&PID_2009#9&35c399e5&0&0000#{4d1e55b2-f16f-11cf-88cb-001111000030}";

    let mode = infer_connection_mode(path, NINTENDO_VENDOR_ID, SWITCH_PRO_PRODUCT_ID);

    assert_eq!(mode, ConnectionMode::Usb);
}

#[test]
fn ignores_xbox_360_for_windows_virtual_pad() {
    assert!(should_ignore_device_identity(
        MICROSOFT_VENDOR_ID,
        XBOX360_WINDOWS_PRODUCT_ID,
        Some("Microsoft"),
        Some("Controller (XBOX 360 For Windows)"),
    ));
}

#[test]
fn ignores_razer_xbox_360_shadow_device() {
    assert!(should_ignore_device_identity(
        0x046D,
        0x0000,
        Some("Microsoft"),
        Some("Controller (Razer Xbox 360 Controller)"),
    ));
}

#[test]
fn keeps_switch_pro_visible_to_the_selector() {
    assert!(!should_ignore_device_identity(
        NINTENDO_VENDOR_ID,
        SWITCH_PRO_PRODUCT_ID,
        Some("Nintendo Co., Ltd."),
        Some("Pro Controller"),
    ));
}

#[test]
fn long_switch_reports_pass_through_padding() {
    let long = vec![7u8; 70];
    assert_eq!(pad_switch_usb_report(&long), long);
}

#[test]
fn subcommand_counter_keeps_low_four_bits() {
    let report = build_switch_usb_subcommand_report(0x1f, SWITCH_SUBCOMMAND_ACK_NOP, &[]);
    assert_eq!(report.len(), 19);
    assert_eq!(report[9], 0x0f);
    assert_eq!(report[18], SWITCH_SUBCOMMAND_ACK_NOP);
}

#[test]
fn switch_pro_usb_start_up_sequence() {
    let reports = switch_pro_usb_init_reports();
    assert_eq!(reports.len(), 7);
    assert_eq!(reports[0], vec![SWITCH_USB_REPORT_ID, SWITCH_USB_DISABLE_TIMEOUT]);
    assert_eq!(reports[1], vec![SWITCH_USB_REPORT_ID, SWITCH_USB_HANDSHAKE]);
    assert_eq!(reports[2], vec![SWITCH_USB_REPORT_ID, SWITCH_USB_BAUD_RATE]);
    assert_eq!(reports[3], vec![SWITCH_USB_REPORT_ID, SWITCH_USB_HANDSHAKE]);
    assert_eq!(reports[4], vec![SWITCH_USB_REPORT_ID, SWITCH_USB_DISABLE_TIMEOUT]);
    assert_eq!(
        reports[5],
        build_switch_usb_subcommand_report(0, SWITCH_SUBCOMMAND_ACK_NOP, &[])
    );
    assert_eq!(
        reports[6],
        build_switch_usb_subcommand_report(
            1,
            SWITCH_SUBCOMMAND_SET_INPUT_REPORT_MODE,
            &[SWITCH_INPUT_REPORT_MODE_FULL]
        )
    );
}

#[test]
fn switch_pro_init_only_over_usb_or_unknown() {
    let mut pad = usb_device(DUALSENSE_PRODUCT_ID);
    pad.backend = Some(InputBackend::NintendoSwitchPro);
    assert!(needs_switch_pro_usb_init(&pad));
    pad.connection_mode = ConnectionMode::Unknown;
    assert!(needs_switch_pro_usb_init(&pad));
    pad.connection_mode = ConnectionMode::Bluetooth;
    assert!(!needs_switch_pro_usb_init(&pad));
    assert!(!needs_switch_pro_usb_init(&usb_device(DUALSENSE_PRODUCT_ID)));
}

#[test]
fn twelve_bit_axes_scale_to_bytes() {
    assert_eq!(scale_axis_12_to_byte(0), 0);
    assert_eq!(scale_axis_12_to_byte(4095), 255);
    assert_eq!(scale_axis_12_to_byte(2048), 128);
}

#[test]
fn short_reports_do_not_parse() {
    assert!(parse_dualsense_input_report(ConnectionMode::Usb, &[0x01, 0x80]).is_none());
    assert!(parse_nintendo_switch_full_input_report(&[0x30, 0x00]).is_none());
    assert!(parse_nintendo_switch_full_input_report(&[0x22; 12]).is_none());
}

#[test]
fn backends_follow_vendor_and_usage() {
    let ds = record("a", SONY_VENDOR_ID, DUALSENSE_PRODUCT_ID, 0x01, 0x05);
    assert_eq!(backend_for(&ds), Some(InputBackend::DualSense));
    let edge = record("a", SONY_VENDOR_ID, DUALSENSE_EDGE_PRODUCT_ID, 0xff00, 0x01);
    assert_eq!(backend_for(&edge), Some(InputBackend::DualSenseEdge));
    let ds4 = record("a", SONY_VENDOR_ID, DUALSHOCK4_PRODUCT_ID, 0x01, 0x05);
    assert_eq!(backend_for(&ds4), Some(InputBackend::DualShock4));
    let pro = record("a", NINTENDO_VENDOR_ID, SWITCH_PRO_PRODUCT_ID, 0x01, 0x05);
    assert_eq!(backend_for(&pro), Some(InputBackend::NintendoSwitchPro));
    let pad = record("a", 0x1234, 0x0001, 0x01, 0x05);
    assert_eq!(backend_for(&pad), Some(InputBackend::GenericGamepad));
    let stick = record("a", 0x1234, 0x0001, 0x01, 0x04);
    assert_eq!(backend_for(&stick), Some(InputBackend::GenericJoystick));
    let mouse = record("a", 0x1234, 0x0001, 0x01, 0x02);
    assert_eq!(backend_for(&mouse), None);
    let virtual_pad = record("a", MICROSOFT_VENDOR_ID, XBOX360_WINDOWS_PRODUCT_ID, 0x01, 0x05);
    assert_eq!(backend_for(&virtual_pad), None);
}

#[test]
fn xinput_interfaces_are_ignored() {
    let mut shadow = record(r"\\?\HID#VID_045E&PID_0B12&IG_00#1", 0x045e, 0x0b12, 0x01, 0x05);
    shadow.manufacturer = Some("Microsoft".to_owned());
    assert_eq!(backend_for(&shadow), None);
    assert!(!should_list(&shadow));
}

#[test]
fn listing_keeps_sony_and_gamepads() {
    assert!(should_list(&record("a", SONY_VENDOR_ID, 0x0001, 0xff00, 0x01)));
    assert!(should_list(&record("a", 0x1234, 0x0001, 0x01, 0x04)));
    assert!(!should_list(&record("a", 0x1234, 0x0001, 0x01, 0x06)));
}

#[test]
fn hid_records_become_entries() {
    let mut rec = record(r"\\?\HID#{00001124-0000-1000-8000-00805f9b34fb}", SONY_VENDOR_ID, DUALSENSE_PRODUCT_ID, 0x01, 0x05);
    rec.serial_number = Some("aa".to_owned());
    let entry = InputDeviceInfo::from_hid(&rec);
    assert_eq!(entry.path, rec.path);
    assert_eq!(entry.source_kind, InputSourceKind::Hid);
    assert_eq!(entry.manufacturer, "Unknown manufacturer");
    assert_eq!(entry.product, "Unknown product");
    assert_eq!(entry.serial_number, Some("aa".to_owned()));
    assert_eq!(entry.backend, Some(InputBackend::DualSense));
    assert_eq!(entry.connection_mode, ConnectionMode::Bluetooth);
    assert_eq!(entry.product_label(), "DualSense");
    assert_eq!(entry.backend_label(), "DualSense Bluetooth");
    assert_eq!(entry.copied(), entry);
}

#[test]
fn connection_mode_markers() {
    assert_eq!(infer_connection_mode("x_bth_y", 1, 2), ConnectionMode::Bluetooth);
    assert_eq!(infer_connection_mode("HID#VID_1&MI_00", 1, 2), ConnectionMode::Usb);
    assert_eq!(infer_connection_mode("plain", 1, 2), ConnectionMode::Unknown);
    assert_eq!(ConnectionMode::Unknown.label(), "Unknown transport");
}

#[test]
fn product_labels() {
    let mut device = usb_device(DUALSENSE_PRODUCT_ID);
    device.product = "DualSense Wireless Controller".to_owned();
    assert_eq!(device.product_label(), "DualSense Wireless Controller");
    device.backend = None;
    assert_eq!(device.product_label(), "DualSense Wireless Controller (Sony)");
    assert_eq!(device.backend_label(), "Unsupported HID");
    device.manufacturer = "Unknown manufacturer".to_owned();
    assert_eq!(device.product_label(), "DualSense Wireless Controller");
}

#[test]
fn xinput_entries_cannot_be_selected() {
    let entry = InputDeviceInfo::xinput(2, "XInput Controller");
    assert_eq!(entry.path, "xinput:2");
    assert!(entry.is_xinput());
    assert!(!entry.is_supported());
    assert!(!entry.is_manual_selectable());
    assert_eq!(entry.interface_number, -1);
    assert!(usb_device(DUALSENSE_PRODUCT_ID).is_manual_selectable());
    assert_eq!(InputSourceKind::XInput.name(), "XInput");
}

#[test]
fn parsers_for_devices() {
    let dual = usb_device(DUALSENSE_PRODUCT_ID);
    assert!(!InputParser::needs_descriptor(&dual));
    match InputParser::for_device(&dual, &[]) {
        Ok(InputParser::SonyDualSense { connection_mode }) => {
            assert_eq!(connection_mode, ConnectionMode::Usb)
        }
        other => panic!("unexpected parser: {other:?}"),
    }
    let mut none = dual.clone();
    none.backend = None;
    assert_eq!(
        InputParser::for_device(&none, &[]).err(),
        Some(ParserBuildError::MissingBackend)
    );
    let ds4 = usb_device(DUALSHOCK4_PRODUCT_ID);
    assert!(InputParser::needs_descriptor(&ds4));
    assert_eq!(
        InputParser::for_device(&ds4, &[]).err(),
        Some(ParserBuildError::Descriptor(GenericParserError::EmptyDescriptor))
    );
}

#[test]
fn backend_labels_and_priorities() {
    assert_eq!(InputBackend::DualShock4V2.label(), "DualShock 4");
    assert_eq!(InputBackend::NintendoSwitchPro.label(), "Switch Pro Controller");
    assert!(InputBackend::GenericJoystick.is_generic());
    assert!(!InputBackend::DualSense.is_generic());
    assert!(InputBackend::DualSenseEdge.priority() > InputBackend::DualSense.priority());
    assert_eq!(InputBackend::NintendoSwitchPro.priority(), InputBackend::DualShock4.priority());
}

#[test]
fn transport_labels() {
    assert_eq!(InputDeviceInfo::xinput(1, "Pad").transport_label(), "XInput");
    assert_eq!(bluetooth_device(DUALSENSE_PRODUCT_ID).transport_label(), "Bluetooth");
}

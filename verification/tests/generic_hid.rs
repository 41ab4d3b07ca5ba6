use hidparser::report_descriptor_parser::ReportDescriptorError;
use resonance_bhop::assist::{Buttons, DpadDirection};
use resonance_bhop::generic_hid::{
    GenericButtonKind, GenericHidParser, GenericParserError, HidField, apply_button_binding,
    dpad_from_hat_value, generic_button_kind_for_usage, scale_field_value_to_byte,
};

fn field(min: i32, max: i32) -> HidField {
    HidField {
        usage: 0x0001_0030,
        bit_start: 0,
        bit_end: 8,
        logical_minimum: min,
        logical_maximum: max,
    }
}

#[test]
fn empty_descriptor_is_rejected() {
    assert_eq!(
        GenericHidParser::from_descriptor(&[]).err(),
        Some(GenericParserError::EmptyDescriptor)
    );
}

#[test]
fn malformed_descriptor_is_rejected() {
    assert_eq!(
        GenericHidParser::from_descriptor(&[0xB4]).err(),
        Some(GenericParserError::InvalidDescriptor(ReportDescriptorError::InvalidPop))
    );
}

#[test]
fn descriptor_without_axes_has_no_gamepad() {
    let buttons_only = [
        0x05, 0x01, 0x09, 0x05, 0xA1, 0x01, 0x05, 0x09, 0x19, 0x01, 0x29, 0x04, 0x15, 0x00, 0x25,
        0x01, 0x75, 0x01, 0x95, 0x04, 0x81, 0x02, 0x75, 0x01, 0x95, 0x04, 0x81, 0x03, 0xC0,
    ];
    assert_eq!(
        GenericHidParser::from_descriptor(&buttons_only).err(),
        Some(GenericParserError::NoGamepadReport)
    );
}

#[test]
fn parser_reads_reports_through_its_layouts() {
    let descriptor = [
        0x05, 0x01, 0x09, 0x05, 0xA1, 0x01, 0x85, 0x01, 0x15, 0x00, 0x26, 0xFF, 0x00, 0x75, 0x08,
        0x95, 0x02, 0x09, 0x30, 0x09, 0x31, 0x81, 0x02, 0x05, 0x09, 0x15, 0x00, 0x25, 0x01, 0x75,
        0x01, 0x95, 0x04, 0x19, 0x01, 0x29, 0x04, 0x81, 0x02, 0x75, 0x01, 0x95, 0x04, 0x81, 0x03,
        0xC0,
    ];
    let parser = GenericHidParser::from_descriptor(&descriptor).expect("descriptor should parse");
    let state = parser.parse(&[0x01, 0x10, 0xF0, 0b0000_0010]).expect("report should parse");
    assert_eq!(state.left_stick.raw_x, 0x10);
    assert_eq!(state.left_stick.raw_y, 0xF0);
    assert!(state.buttons.circle);
    assert!(!state.buttons.cross);
    assert_eq!(state.right_stick.raw_x, 128);
    assert_eq!(state.dpad, DpadDirection::Neutral);
    assert!(parser.parse(&[0x02, 0x10, 0xF0, 0x00]).is_none());
    assert!(parser.parse(&[0x01, 0x10]).is_none());
}

#[test]
fn field_values_scale_onto_a_byte() {
    assert_eq!(scale_field_value_to_byte(&field(0, 255), 128), Some(128));
    assert_eq!(scale_field_value_to_byte(&field(0, 255), 300), Some(255));
    assert_eq!(scale_field_value_to_byte(&field(-127, 127), 0), Some(128));
    assert_eq!(scale_field_value_to_byte(&field(-127, 127), -127), Some(0));
    assert_eq!(scale_field_value_to_byte(&field(0, 1023), 1023), Some(255));
    assert_eq!(scale_field_value_to_byte(&field(5, 5), 5), None);
    assert_eq!(scale_field_value_to_byte(&field(0, -1), 0x7fff_ffff), Some(127));
}

#[test]
fn hat_values_and_button_usages() {
    assert_eq!(dpad_from_hat_value(0), DpadDirection::North);
    assert_eq!(dpad_from_hat_value(7), DpadDirection::NorthWest);
    assert_eq!(dpad_from_hat_value(8), DpadDirection::Neutral);
    assert_eq!(dpad_from_hat_value(-1), DpadDirection::Neutral);
    assert_eq!(generic_button_kind_for_usage(1), Some(GenericButtonKind::Cross));
    assert_eq!(generic_button_kind_for_usage(15), Some(GenericButtonKind::Mute));
    assert_eq!(generic_button_kind_for_usage(0), None);
    assert_eq!(generic_button_kind_for_usage(16), None);
}

#[test]
fn button_bindings_set_one_button() {
    let mut buttons = Buttons::default();
    apply_button_binding(&mut buttons, GenericButtonKind::Touchpad, true);
    assert!(buttons.touchpad);
    apply_button_binding(&mut buttons, GenericButtonKind::Touchpad, false);
    assert_eq!(buttons, Buttons::default());
}

use resonance_bhop::generic_hid::{HidReport, HidReportField, check_descriptor_limits};

fn variable(usage: u32, bit_start: u32, bit_end: u32) -> HidReportField {
    HidReportField::Variable(HidField {
        usage,
        bit_start,
        bit_end,
        logical_minimum: 0,
        logical_maximum: 255,
    })
}

fn gamepad_report(report_id: u32, x_bits: u32) -> HidReport {
    HidReport {
        report_id: Some(report_id),
        size_in_bits: (x_bits + 17) as usize,
        fields: vec![
            variable(0x0001_0030, 0, x_bits),
            variable(0x0001_0031, x_bits, x_bits + 8),
            HidReportField::Variable(HidField {
                usage: 0x0009_0001,
                bit_start: x_bits + 8,
                bit_end: x_bits + 9,
                logical_minimum: 0,
                logical_maximum: 1,
            }),
        ],
    }
}

#[test]
fn layouts_with_unreadable_fields_are_kept() {
    let reports = vec![gamepad_report(1, 70), gamepad_report(2, 8)];
    let parser = GenericHidParser::from_reports(&reports).expect("both reports are gamepads");
    assert_eq!(parser.layouts.len(), 2);
    let second = [0x02, 0x10, 0xF0, 0x01, 0x00];
    assert!(parser.reads_readable(&second));
    let state = parser.parse(&second).expect("second report should parse");
    assert_eq!(state.left_stick.raw_x, 0x10);
    assert_eq!(state.left_stick.raw_y, 0xF0);
    assert!(state.buttons.cross);
    let first = [0x01, 0, 0, 0, 0, 0, 0, 0, 0, 0, 0, 0];
    assert!(!parser.reads_readable(&first));
    let only_wide = GenericHidParser::from_reports(&vec![gamepad_report(1, 70)])
        .expect("a wide axis still makes a gamepad layout");
    assert_eq!(only_wide.layouts.len(), 1);
    assert!(only_wide.reads_readable(&[0x02, 0x10, 0xF0, 0x01]));
    assert!(only_wide.parse(&[0x02, 0x10, 0xF0, 0x01]).is_none());
    assert_eq!(
        GenericHidParser::from_reports(&Vec::new()).err(),
        Some(GenericParserError::NoGamepadReport)
    );
}

#[test]
fn wide_hat_is_read_only_when_the_digital_dpad_is_neutral() {
    let report = HidReport {
        report_id: Some(1),
        size_in_bits: 88,
        fields: vec![
            variable(0x0001_0030, 0, 8),
            variable(0x0001_0031, 8, 16),
            HidReportField::Variable(HidField {
                usage: 0x0009_0001,
                bit_start: 16,
                bit_end: 17,
                logical_minimum: 0,
                logical_maximum: 1,
            }),
            HidReportField::Variable(HidField {
                usage: 0x0001_0090,
                bit_start: 17,
                bit_end: 18,
                logical_minimum: 0,
                logical_maximum: 1,
            }),
            variable(0x0001_0039, 18, 88),
        ],
    };
    let parser = GenericHidParser::from_reports(&vec![report]).expect("gamepad layout");
    let mut up_pressed = [0_u8; 12];
    up_pressed[0] = 0x01;
    up_pressed[1] = 0x80;
    up_pressed[2] = 0x80;
    up_pressed[3] = 0b0000_0010;
    assert!(parser.reads_readable(&up_pressed));
    let state = parser.parse(&up_pressed).expect("report should parse");
    assert_eq!(state.dpad, DpadDirection::North);
    let mut neutral = up_pressed;
    neutral[3] = 0;
    assert!(!parser.reads_readable(&neutral));
}

#[test]
fn oversized_descriptors_are_refused_before_parsing() {
    let huge_count = [
        0x05, 0x01, 0x09, 0x05, 0xA1, 0x01, 0x75, 0x08, 0x97, 0x00, 0x00, 0x00, 0x20, 0x09, 0x30,
        0x15, 0x00, 0x26, 0xFF, 0x00, 0x81, 0x02, 0xC0,
    ];
    assert!(!check_descriptor_limits(&huge_count));
    assert_eq!(
        GenericHidParser::from_descriptor(&huge_count).err(),
        Some(GenericParserError::OversizedDescriptor)
    );
    let huge_size = [
        0x05, 0x01, 0x09, 0x05, 0xA1, 0x01, 0x77, 0x00, 0x00, 0x00, 0x10, 0x95, 0x20, 0x09, 0x30,
        0x15, 0x00, 0x26, 0xFF, 0x00, 0x81, 0x02, 0xC0,
    ];
    assert!(!check_descriptor_limits(&huge_size));
    let ordinary = [
        0x05, 0x01, 0x09, 0x05, 0xA1, 0x01, 0x75, 0x08, 0x95, 0x02, 0x09, 0x30, 0x09, 0x31, 0x15,
        0x00, 0x26, 0xFF, 0x00, 0x81, 0x02, 0xC0,
    ];
    assert!(check_descriptor_limits(&ordinary));
    assert!(check_descriptor_limits(&[0xFE, 0x10]));
    let mut many_items = vec![0x05, 0x01, 0x09, 0x05, 0xA1, 0x01, 0x75, 0x08, 0x95, 0xFF];
    for _ in 0..300 {
        many_items.extend_from_slice(&[0x81, 0x03]);
    }
    many_items.push(0xC0);
    assert!(check_descriptor_limits(&many_items));
    let mut split_total = vec![0x75, 0x08, 0x97, 0x00, 0x00, 0x00, 0x10];
    split_total.extend_from_slice(&[0x81, 0x03, 0x81, 0x03]);
    assert!(!check_descriptor_limits(&split_total));
    assert!(check_descriptor_limits(&split_total[..9]));
}

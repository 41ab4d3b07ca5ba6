use resonance_bhop::assist::{
    AssistConfig, AssistPhase, Buttons, ControllerState, JumpButton, NANOS_PER_MILLI, StickState,
};
use resonance_bhop::calibration::{
    ButtonSource, ButtonTarget, CalibrationStore, DeviceCalibrationProfile,
};
use resonance_bhop::dualsense::{ConnectionMode, InputDeviceInfo, InputParser};
use resonance_bhop::runtime::{
    BridgeCore, ServiceState, TickAction, format_error_chain, is_due,
};

fn device() -> InputDeviceInfo {
    InputDeviceInfo::xinput(0, "Pad")
}

fn parser() -> InputParser {
    InputParser::SonyDualSense {
        connection_mode: ConnectionMode::Usb,
    }
}

fn jump_input() -> ControllerState {
    ControllerState {
        left_stick: StickState::new(255, 128),
        buttons: Buttons {
            circle: true,
            ..Buttons::default()
        },
        ..ControllerState::default()
    }
}

fn config() -> AssistConfig {
    AssistConfig {
        jump_button: JumpButton::Circle,
        jump_overlap_ms: 10,
        movement_release_ms: 20,
        retrigger_guard_ms: 10,
        only_assist_while_moving: true,
    }
}

#[test]
fn error_chains_join_causes() {
    assert_eq!(format_error_chain(&[]), "unknown error");
    assert_eq!(format_error_chain(&["top".to_owned()]), "top");
    assert_eq!(
        format_error_chain(&["top".to_owned(), "middle".to_owned(), "root".to_owned()]),
        "top\ncaused by: middle\ncaused by: root"
    );
}

#[test]
fn deadlines() {
    assert!(is_due(None, 0));
    assert!(is_due(Some(10), 10));
    assert!(!is_due(Some(10), 9));
}

#[test]
fn driver_errors_keep_the_controller() {
    let mut core = BridgeCore::new();
    core.activate(device(), parser());
    core.last_output = Some(ControllerState::default());
    let state = core.record_error("failed\ncaused by: ViGEmBus driver is not available", 1_000);
    assert_eq!(state, ServiceState::DriverMissing);
    assert_eq!(core.next_driver_retry, Some(3_000));
    assert!(core.has_active_controller());
    assert!(core.last_output.is_some());
    assert!(!core.driver_retry_due(2_999));
    assert!(core.driver_retry_due(3_000));
}

#[test]
fn other_errors_drop_the_controller() {
    let mut core = BridgeCore::new();
    core.activate(device(), parser());
    core.last_output = Some(ControllerState::default());
    let state = core.record_error("controller disappeared unexpectedly", u64::MAX - 5);
    assert_eq!(state, ServiceState::Error);
    assert!(!core.has_active_controller());
    assert!(core.last_output.is_none());
    assert_eq!(core.next_controller_scan, Some(u64::MAX));
    assert!(core.device_hint.is_some());
}

#[test]
fn changing_the_selection_resets_the_bridge() {
    let mut core = BridgeCore::new();
    core.activate(device(), parser());
    assert!(!core.sync_preferences(None));
    assert!(core.has_active_controller());
    assert!(core.sync_preferences(Some("path".to_owned())));
    assert!(!core.has_active_controller());
    assert!(core.device_hint.is_none());
    assert_eq!(core.preferred_device_path, Some("path".to_owned()));
    assert!(!core.sync_preferences(Some("path".to_owned())));
    assert!(core.sync_preferences(None));
}

#[test]
fn activation_remembers_the_device() {
    let mut core = BridgeCore::new();
    core.controller_not_found(100);
    assert_eq!(core.next_controller_scan, Some(1_000));
    assert!(!core.controller_scan_due(999));
    core.activate(device(), parser());
    assert_eq!(core.device_hint, Some(device()));
    assert_eq!(core.active_device, Some(device()));
    assert!(core.controller_scan_due(0));
}

#[test]
fn readings_are_calibrated_and_replayed() {
    let info = device();
    let mut store = CalibrationStore::default();
    let mut profile = DeviceCalibrationProfile::new(&info);
    profile.set_button_source(ButtonTarget::Cross, ButtonSource::Circle);
    store.upsert(profile);

    let mut core = BridgeCore::new();
    assert_eq!(core.take_reading(None, false, &store), TickAction::Idle);
    assert_eq!(core.take_reading(None, true, &store), TickAction::ReportPending);

    core.activate(info, parser());
    let raw = jump_input();
    match core.take_reading(Some(raw), false, &store) {
        TickAction::Publish { raw: r, input, force } => {
            assert_eq!(r, raw);
            assert!(input.buttons.cross);
            assert!(!force);
            assert_eq!(core.last_input, Some(input));
            assert_eq!(core.last_raw_input, Some(raw));
            match core.take_reading(None, true, &store) {
                TickAction::Publish { raw: r2, input: i2, force: f2 } => {
                    assert_eq!(r2, raw);
                    assert_eq!(i2, input);
                    assert!(f2);
                }
                other => panic!("unexpected action: {other:?}"),
            }
        }
        other => panic!("unexpected action: {other:?}"),
    }
}

#[test]
fn publishing_sends_only_changes_unless_forced() {
    let mut core = BridgeCore::new();
    let input = jump_input();
    let t0 = 1_000 * NANOS_PER_MILLI;
    assert_eq!(core.read_timeout_ms(), 8);
    let (out, send) = core.publish(input, config(), true, t0, false);
    assert_eq!(out, input);
    assert!(send);
    assert!(core.last_output.is_none());
    assert_eq!(core.assist.phase(), AssistPhase::JumpPressed);
    assert_eq!(core.read_timeout_ms(), 2);
    let (_, send) = core.publish(input, config(), true, t0 + NANOS_PER_MILLI, false);
    assert!(send, "an output that was never confirmed is sent again");
    core.confirm_sent(out);
    assert_eq!(core.last_output, Some(out));
    let (out, send) = core.publish(input, config(), true, t0 + 2 * NANOS_PER_MILLI, false);
    assert_eq!(out, input);
    assert!(!send);
    let (out, send) = core.publish(input, config(), true, t0 + 15 * NANOS_PER_MILLI, false);
    assert_eq!(out.left_stick, StickState::neutral());
    assert!(send);
    core.confirm_sent(out);
    let (_, send) = core.publish(input, config(), true, t0 + 16 * NANOS_PER_MILLI, true);
    assert!(send);
    assert_eq!(core.last_output, Some(out));
}

#[test]
fn stopping_resets_the_bridge() {
    let mut core = BridgeCore::new();
    core.activate(device(), parser());
    core.publish(jump_input(), config(), true, 0, false);
    core.controller_not_found(5);
    core.record_error("ViGEmBus", 5);
    core.stop();
    assert!(!core.has_active_controller());
    assert_eq!(core.assist.phase(), AssistPhase::Idle);
    assert_eq!(core.assist.jump_count(), 0);
    assert!(core.last_output.is_none());
    assert!(core.next_controller_scan.is_none());
    assert!(core.next_driver_retry.is_none());
    assert!(core.device_hint.is_some());
}

#[test]
fn refreshes_are_spaced() {
    let mut core = BridgeCore::new();
    assert!(core.take_inventory_refresh(0));
    assert!(!core.take_inventory_refresh(999));
    assert!(core.take_inventory_refresh(1_000));
    assert_eq!(core.next_inventory_refresh, Some(2_000));
    assert!(core.take_diagnostics_refresh(0));
    assert!(!core.take_diagnostics_refresh(3_999));
    assert!(core.take_diagnostics_refresh(4_000));
}

#[test]
fn parsing_needs_an_active_parser() {
    let mut core = BridgeCore::new();
    let report = [
        0x01, 0x80, 0x80, 0x80, 0x80, 0x00, 0x00, 0x00, 0x28, 0x00, 0x00, 0x00,
    ];
    assert!(core.parse_report(&report).is_none());
    core.activate(device(), parser());
    assert!(core.parse_report(&report).expect("report should parse").buttons.cross);
    core.clear_active_controller();
    assert!(core.parse_report(&report).is_none());
    core.virtual_pad_connected();
    assert!(core.next_driver_retry.is_none());
}

//! XInput pads: their button flags and axes as a controller state, and the
//! inventory entries of connected XInput slots.
use vstd::prelude::*;
use crate::assist::{
    Buttons, ControllerState, DpadDirection, StickState, axis_value, composed_direction,
};
use crate::dualsense::{DeviceView, InputDeviceInfo, xinput_entry_view};
use crate::selection::entry_views;
use crate::text::decimal_text;

verus! {

/// Status of a successful XInput poll.
pub const ERROR_SUCCESS: u32 = 0;
/// Status of a poll of an empty XInput slot.
pub const ERROR_DEVICE_NOT_CONNECTED: u32 = 1_167;
/// Number of XInput slots.
pub const XINPUT_SLOT_COUNT: u32 = 4;
/// Trigger travel from which an XInput trigger counts as pressed.
pub const XINPUT_TRIGGER_BUTTON_THRESHOLD: u8 = 30;

pub const XINPUT_GAMEPAD_DPAD_UP: u16 = 0x0001;
pub const XINPUT_GAMEPAD_DPAD_DOWN: u16 = 0x0002;
pub const XINPUT_GAMEPAD_DPAD_LEFT: u16 = 0x0004;
pub const XINPUT_GAMEPAD_DPAD_RIGHT: u16 = 0x0008;
pub const XINPUT_GAMEPAD_START: u16 = 0x0010;
pub const XINPUT_GAMEPAD_BACK: u16 = 0x0020;
pub const XINPUT_GAMEPAD_LEFT_THUMB: u16 = 0x0040;
pub const XINPUT_GAMEPAD_RIGHT_THUMB: u16 = 0x0080;
pub const XINPUT_GAMEPAD_LEFT_SHOULDER: u16 = 0x0100;
pub const XINPUT_GAMEPAD_RIGHT_SHOULDER: u16 = 0x0200;
pub const XINPUT_GAMEPAD_A: u16 = 0x1000;
pub const XINPUT_GAMEPAD_B: u16 = 0x2000;
pub const XINPUT_GAMEPAD_X: u16 = 0x4000;
pub const XINPUT_GAMEPAD_Y: u16 = 0x8000;

/// The gamepad part of an XInput state, as plain values.
#[derive(Clone, Copy, Debug, PartialEq, Eq, Structural)]
pub struct XInputGamepad {
    pub buttons: u16,
    pub left_trigger: u8,
    pub right_trigger: u8,
    pub thumb_lx: i16,
    pub thumb_ly: i16,
    pub thumb_rx: i16,
    pub thumb_ry: i16,
}

/// A polled XInput state.
#[derive(Clone, Copy, Debug, PartialEq, Eq, Structural)]
pub struct XInputSnapshot {
    pub packet_number: u32,
    pub state: ControllerState,
}

/// A failed XInput poll.
#[derive(Clone, Copy, Debug, PartialEq, Eq, Structural)]
pub struct XInputPollError {
    pub slot: u32,
    pub code: u32,
}

/// Whether every bit of `mask` is set in `buttons`.
pub open spec fn flags_set(buttons: u16, mask: u16) -> bool {
    buttons & mask == mask
}

/// Whether every bit of `mask` is set in `buttons`.
pub fn button_pressed(buttons: u16, mask: u16) -> (r: bool)
    ensures
        r == flags_set(buttons, mask),
{
    (buttons & mask) == mask
}

/// The d-pad direction of XInput button flags.
pub fn dpad_from_buttons(buttons: u16) -> (r: DpadDirection)
    ensures
        r == composed_direction(
            flags_set(buttons, XINPUT_GAMEPAD_DPAD_UP),
            flags_set(buttons, XINPUT_GAMEPAD_DPAD_DOWN),
            flags_set(buttons, XINPUT_GAMEPAD_DPAD_LEFT),
            flags_set(buttons, XINPUT_GAMEPAD_DPAD_RIGHT),
        ),
{
    crate::assist::compose_dpad(
        button_pressed(buttons, XINPUT_GAMEPAD_DPAD_UP),
        button_pressed(buttons, XINPUT_GAMEPAD_DPAD_DOWN),
        button_pressed(buttons, XINPUT_GAMEPAD_DPAD_LEFT),
        button_pressed(buttons, XINPUT_GAMEPAD_DPAD_RIGHT),
    )
}

/// The raw byte (centre 128) of a signed XInput axis value, clamped to the
/// `i16` range first and rounded to nearest: the positive half is scaled
/// from `0..=32767` onto `128..=255`, the negative half from `-32768..0`
/// onto `0..128` (division rounding toward zero).
pub open spec fn spec_raw_from_xinput_axis(value: i32) -> u8 {
    let v: int = if value < -32768 {
        -32768
    } else if value > 32767 {
        32767
    } else {
        value as int
    };
    if v >= 0 {
        (128 + (v * 127 + 16383) / 32767) as u8
    } else {
        (128 - (16384 - v * 128) / 32768) as u8
    }
}

/// The clamp of an `i32` to the `i16` range.
pub open spec fn clamp_to_i16(value: i32) -> i32 {
    if value < -32768 {
        -32768i32
    } else if value > 32767 {
        32767i32
    } else {
        value
    }
}

/// Converting a raw byte to its signed XInput axis value and back gives the
/// byte again, for every byte; and an XInput value reads as its clamp to the
/// `i16` range.
pub proof fn lemma_xinput_axis_round_trip(raw: u8, value: i32)
    ensures
        spec_raw_from_xinput_axis(axis_value(raw) as i32) == raw,
        spec_raw_from_xinput_axis(value) == spec_raw_from_xinput_axis(clamp_to_i16(value)),
{
    if raw >= 128 {
        let d: int = raw - 128;
        if d < 127 {
            assert((d * 32767) / 127 == 258 * d) by (nonlinear_arith)
                requires
                    0 <= d < 127,
            ;
            assert((258 * d * 127 + 16383) / 32767 == d) by (nonlinear_arith)
                requires
                    0 <= d < 127,
            ;
        } else {
            assert((127 * 32767) / 127 == 32767) by (nonlinear_arith);
            assert((32767 * 127 + 16383) / 32767 == 127) by (nonlinear_arith);
        }
    } else {
        let e: int = 128 - raw;
        assert((16384 + e * 256 * 128) / 32768 == e) by (nonlinear_arith)
            requires
                1 <= e <= 128,
        ;
    }
}

/// The raw byte (centre 128) of a signed XInput axis value.
pub fn raw_from_xinput_axis(value: i32) -> (r: u8)
    ensures
        r == spec_raw_from_xinput_axis(value),
{
    let v: i32 = if value < -32768 {
        -32768
    } else if value > 32767 {
        32767
    } else {
        value
    };
    if v >= 0 {
        let n: u32 = v as u32;
        assert(n * 127 + 16383 <= 32767 * 127 + 16383) by (nonlinear_arith)
            requires
                n <= 32767,
        ;
        let q: u32 = (n * 127 + 16383) / 32767;
        assert(q <= 127) by (nonlinear_arith)
            requires
                q == (n * 127 + 16383) / 32767,
                n <= 32767,
        ;
        (128 + q) as u8
    } else {
        let m: u32 = (-v) as u32;
        assert(m * 128 <= 32768 * 128) by (nonlinear_arith)
            requires
                m <= 32768,
        ;
        let n: u32 = 16384 + m * 128;
        let q: u32 = n / 32768;
        assert(q <= 128) by (nonlinear_arith)
            requires
                q == n / 32768,
                n <= 16384 + 32768 * 128,
        ;
        assert(n == 16384 - v * 128);
        (128 - q) as u8
    }
}

/// The buttons of an XInput state; the trigger buttons follow the trigger
/// threshold, and XInput has no PS, touchpad or mute button.
pub open spec fn spec_xinput_buttons(gamepad: XInputGamepad) -> Buttons {
    let b = gamepad.buttons;
    Buttons {
        square: flags_set(b, XINPUT_GAMEPAD_X),
        circle: flags_set(b, XINPUT_GAMEPAD_B),
        cross: flags_set(b, XINPUT_GAMEPAD_A),
        triangle: flags_set(b, XINPUT_GAMEPAD_Y),
        l1: flags_set(b, XINPUT_GAMEPAD_LEFT_SHOULDER),
        r1: flags_set(b, XINPUT_GAMEPAD_RIGHT_SHOULDER),
        l2_button: gamepad.left_trigger >= XINPUT_TRIGGER_BUTTON_THRESHOLD,
        r2_button: gamepad.right_trigger >= XINPUT_TRIGGER_BUTTON_THRESHOLD,
        create: flags_set(b, XINPUT_GAMEPAD_BACK),
        options: flags_set(b, XINPUT_GAMEPAD_START),
        l3: flags_set(b, XINPUT_GAMEPAD_LEFT_THUMB),
        r3: flags_set(b, XINPUT_GAMEPAD_RIGHT_THUMB),
        ps: false,
        touchpad: false,
        mute: false,
    }
}

/// The controller state of an XInput gamepad; the y axes are negated, as
/// XInput counts up as positive.
pub open spec fn spec_map_xinput_state(gamepad: XInputGamepad) -> ControllerState {
    ControllerState {
        left_stick: StickState {
            raw_x: spec_raw_from_xinput_axis(gamepad.thumb_lx as i32),
            raw_y: spec_raw_from_xinput_axis(-(gamepad.thumb_ly as i32) as i32),
        },
        right_stick: StickState {
            raw_x: spec_raw_from_xinput_axis(gamepad.thumb_rx as i32),
            raw_y: spec_raw_from_xinput_axis(-(gamepad.thumb_ry as i32) as i32),
        },
        l2: gamepad.left_trigger,
        r2: gamepad.right_trigger,
        dpad: composed_direction(
            flags_set(gamepad.buttons, XINPUT_GAMEPAD_DPAD_UP),
            flags_set(gamepad.buttons, XINPUT_GAMEPAD_DPAD_DOWN),
            flags_set(gamepad.buttons, XINPUT_GAMEPAD_DPAD_LEFT),
            flags_set(gamepad.buttons, XINPUT_GAMEPAD_DPAD_RIGHT),
        ),
        buttons: spec_xinput_buttons(gamepad),
    }
}

fn xinput_buttons(gamepad: XInputGamepad) -> (r: Buttons)
    ensures
        r == spec_xinput_buttons(gamepad),
{
    let b = gamepad.buttons;
    Buttons {
        square: button_pressed(b, XINPUT_GAMEPAD_X),
        circle: button_pressed(b, XINPUT_GAMEPAD_B),
        cross: button_pressed(b, XINPUT_GAMEPAD_A),
        triangle: button_pressed(b, XINPUT_GAMEPAD_Y),
        l1: button_pressed(b, XINPUT_GAMEPAD_LEFT_SHOULDER),
        r1: button_pressed(b, XINPUT_GAMEPAD_RIGHT_SHOULDER),
        l2_button: gamepad.left_trigger >= XINPUT_TRIGGER_BUTTON_THRESHOLD,
        r2_button: gamepad.right_trigger >= XINPUT_TRIGGER_BUTTON_THRESHOLD,
        create: button_pressed(b, XINPUT_GAMEPAD_BACK),
        options: button_pressed(b, XINPUT_GAMEPAD_START),
        l3: button_pressed(b, XINPUT_GAMEPAD_LEFT_THUMB),
        r3: button_pressed(b, XINPUT_GAMEPAD_RIGHT_THUMB),
        ps: false,
        touchpad: false,
        mute: false,
    }
}

/// The controller state of an XInput gamepad.
pub fn map_xinput_state(gamepad: XInputGamepad) -> (r: ControllerState)
    ensures
        r == spec_map_xinput_state(gamepad),
{
    ControllerState {
        left_stick: StickState::new(
            raw_from_xinput_axis(gamepad.thumb_lx as i32),
            raw_from_xinput_axis(-(gamepad.thumb_ly as i32)),
        ),
        right_stick: StickState::new(
            raw_from_xinput_axis(gamepad.thumb_rx as i32),
            raw_from_xinput_axis(-(gamepad.thumb_ry as i32)),
        ),
        l2: gamepad.left_trigger,
        r2: gamepad.right_trigger,
        dpad: dpad_from_buttons(gamepad.buttons),
        buttons: xinput_buttons(gamepad),
    }
}

/// The outcome of polling an XInput slot: the state when the poll succeeded,
/// nothing when the slot is empty, an error for any other status.
pub fn poll_outcome(slot: u32, status: u32, packet_number: u32, gamepad: XInputGamepad) -> (r: Result<
    Option<XInputSnapshot>,
    XInputPollError,
>)
    ensures
        status == ERROR_SUCCESS ==> r == Ok::<Option<XInputSnapshot>, XInputPollError>(
            Some(XInputSnapshot { packet_number, state: spec_map_xinput_state(gamepad) }),
        ),
        status == ERROR_DEVICE_NOT_CONNECTED ==> r == Ok::<
            Option<XInputSnapshot>,
            XInputPollError,
        >(None),
        status != ERROR_SUCCESS && status != ERROR_DEVICE_NOT_CONNECTED ==> r == Err::<
            Option<XInputSnapshot>,
            XInputPollError,
        >(XInputPollError { slot, code: status }),
{
    if status == ERROR_SUCCESS {
        Ok(Some(XInputSnapshot { packet_number, state: map_xinput_state(gamepad) }))
    } else if status == ERROR_DEVICE_NOT_CONNECTED {
        Ok(None)
    } else {
        Err(XInputPollError { slot, code: status })
    }
}

/// The entries of the XInput slots that have a pad, `connected[i]` telling
/// whether slot `i` answered a poll.
pub open spec fn xinput_slot_views(connected: Seq<bool>) -> Seq<DeviceView>
    decreases connected.len(),
{
    if connected.len() == 0 {
        Seq::empty()
    } else {
        let rest = xinput_slot_views(connected.drop_last());
        if connected.last() {
            rest.push(xinput_entry_view((connected.len() - 1) as u32, "XInput Controller"@))
        } else {
            rest
        }
    }
}

/// Inventory entries for the XInput slots that have a pad: `connected[i]`
/// tells whether slot `i` answered a poll.
pub fn scan_xinput_devices(connected: &[bool]) -> (r: Vec<InputDeviceInfo>)
    requires
        connected@.len() <= u32::MAX,
    ensures
        entry_views(r@) == xinput_slot_views(connected@),
{
    let mut devices: Vec<InputDeviceInfo> = Vec::new();
    let mut slot: usize = 0;
    assert(connected@.take(0) =~= Seq::<bool>::empty());
    assert(entry_views(devices@) =~= Seq::<DeviceView>::empty());
    while slot < connected.len()
        invariant
            connected@.len() <= u32::MAX,
            slot <= connected@.len(),
            entry_views(devices@) == xinput_slot_views(connected@.take(slot as int)),
        decreases connected@.len() - slot,
    {
        let ghost before = devices@;
        if connected[slot] {
            let entry = InputDeviceInfo::xinput(slot as u32, "XInput Controller");
            devices.push(entry);
            assert(entry_views(devices@) =~= entry_views(before).push(entry@));
        }
        proof {
            let t = connected@.take(slot + 1);
            assert(t.drop_last() =~= connected@.take(slot as int));
            assert(t.last() == connected@[slot as int]);
        }
        slot = slot + 1;
    }
    assert(connected@.take(slot as int) =~= connected@);
    devices
}

} // verus!

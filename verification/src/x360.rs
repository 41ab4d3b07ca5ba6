//! The report sent to the virtual Xbox 360 pad.
use vstd::prelude::*;
use crate::assist::ControllerState;

verus! {

pub const X360_DPAD_UP: u16 = 0x0001;
pub const X360_DPAD_DOWN: u16 = 0x0002;
pub const X360_DPAD_LEFT: u16 = 0x0004;
pub const X360_DPAD_RIGHT: u16 = 0x0008;
pub const X360_START: u16 = 0x0010;
pub const X360_BACK: u16 = 0x0020;
pub const X360_LEFT_THUMB: u16 = 0x0040;
pub const X360_RIGHT_THUMB: u16 = 0x0080;
pub const X360_LEFT_SHOULDER: u16 = 0x0100;
pub const X360_RIGHT_SHOULDER: u16 = 0x0200;
pub const X360_GUIDE: u16 = 0x0400;
pub const X360_A: u16 = 0x1000;
pub const X360_B: u16 = 0x2000;
pub const X360_X: u16 = 0x4000;
pub const X360_Y: u16 = 0x8000;

/// One frame of Xbox 360 input: the button bits, the triggers and the
/// signed stick axes.
#[derive(Clone, Copy, Debug, PartialEq, Eq, Structural)]
pub struct X360Output {
    pub buttons: u16,
    pub left_trigger: u8,
    pub right_trigger: u8,
    pub thumb_lx: i16,
    pub thumb_ly: i16,
    pub thumb_rx: i16,
    pub thumb_ry: i16,
}

/// `bit` when `pressed`, else nothing.
#[verifier::opaque]
pub open spec fn flag_bit(pressed: bool, bit: u16) -> int {
    if pressed {
        bit as int
    } else {
        0
    }
}

/// The sum of the button bits of the pressed controls, each argument
/// saying whether the control of that bit is pressed.
pub open spec fn flag_sum(
    a: bool,
    b: bool,
    x: bool,
    y: bool,
    lb: bool,
    rb: bool,
    back: bool,
    start: bool,
    lt: bool,
    rt: bool,
    guide: bool,
    up: bool,
    down: bool,
    left: bool,
    right: bool,
) -> int {
    flag_bit(a, X360_A) + flag_bit(b, X360_B) + flag_bit(x, X360_X) + flag_bit(y, X360_Y)
        + flag_bit(lb, X360_LEFT_SHOULDER) + flag_bit(rb, X360_RIGHT_SHOULDER) + flag_bit(
        back,
        X360_BACK,
    ) + flag_bit(start, X360_START) + flag_bit(lt, X360_LEFT_THUMB) + flag_bit(
        rt,
        X360_RIGHT_THUMB,
    ) + flag_bit(guide, X360_GUIDE) + flag_bit(up, X360_DPAD_UP) + flag_bit(down, X360_DPAD_DOWN)
        + flag_bit(left, X360_DPAD_LEFT) + flag_bit(right, X360_DPAD_RIGHT)
}

/// The Xbox 360 button bits of a controller state: face buttons by
/// position (cross is A, circle B, square X, triangle Y), shoulders, the
/// create and options buttons as Back and Start, stick clicks, the PS button
/// as Guide, and the d-pad.  The trigger clicks, touchpad and mute have no
/// bit.
pub open spec fn x360_buttons(state: ControllerState) -> int {
    flag_sum(
        state.buttons.cross,
        state.buttons.circle,
        state.buttons.square,
        state.buttons.triangle,
        state.buttons.l1,
        state.buttons.r1,
        state.buttons.create,
        state.buttons.options,
        state.buttons.l3,
        state.buttons.r3,
        state.buttons.ps,
        state.dpad.spec_up(),
        state.dpad.spec_down(),
        state.dpad.spec_left(),
        state.dpad.spec_right(),
    )
}

fn flag_value(pressed: bool, bit: u16) -> (r: u16)
    ensures
        r == flag_bit(pressed, bit),
        r <= bit,
{
    reveal(flag_bit);
    if pressed {
        bit
    } else {
        0
    }
}

/// The Xbox 360 report for a controller state.
pub fn map_to_x360_report(state: ControllerState) -> (r: X360Output)
    ensures
        r.buttons == x360_buttons(state),
        r.left_trigger == state.l2,
        r.right_trigger == state.r2,
        r.thumb_lx == state.left_stick.spec_xinput_x(),
        r.thumb_ly == state.left_stick.spec_xinput_y(),
        r.thumb_rx == state.right_stick.spec_xinput_x(),
        r.thumb_ry == state.right_stick.spec_xinput_y(),
{
    let b = state.buttons;
    let a = flag_value(b.cross, X360_A);
    let bb = flag_value(b.circle, X360_B);
    let x = flag_value(b.square, X360_X);
    let y = flag_value(b.triangle, X360_Y);
    let lb = flag_value(b.l1, X360_LEFT_SHOULDER);
    let rb = flag_value(b.r1, X360_RIGHT_SHOULDER);
    let back = flag_value(b.create, X360_BACK);
    let start = flag_value(b.options, X360_START);
    let lt = flag_value(b.l3, X360_LEFT_THUMB);
    let rt = flag_value(b.r3, X360_RIGHT_THUMB);
    let guide = flag_value(b.ps, X360_GUIDE);
    let up = flag_value(state.dpad.up(), X360_DPAD_UP);
    let down = flag_value(state.dpad.down(), X360_DPAD_DOWN);
    let left = flag_value(state.dpad.left(), X360_DPAD_LEFT);
    let right = flag_value(state.dpad.right(), X360_DPAD_RIGHT);
    let face: u16 = a + bb + x + y;
    let shoulders: u16 = lb + rb + back + start + lt + rt + guide;
    let dpad: u16 = up + down + left + right;
    let mask: u16 = face + shoulders + dpad;
    X360Output {
        buttons: mask,
        left_trigger: state.l2,
        right_trigger: state.r2,
        thumb_lx: state.left_stick.xinput_x(),
        thumb_ly: state.left_stick.xinput_y(),
        thumb_rx: state.right_stick.xinput_x(),
        thumb_ry: state.right_stick.xinput_y(),
    }
}

proof fn lemma_disjoint_flag_bits(
    v: u16, a: u16, b: u16, x: u16, y: u16, lb: u16, rb: u16, back: u16, start: u16,
    lt: u16, rt: u16, guide: u16, up: u16, down: u16, left: u16, right: u16,
)
    by (bit_vector)
    requires
        v == a | b | x | y | lb | rb | back | start | lt | rt | guide | up | down | left | right,
        a == 0 || a == 0x1000,
        b == 0 || b == 0x2000,
        x == 0 || x == 0x4000,
        y == 0 || y == 0x8000,
        lb == 0 || lb == 0x0100,
        rb == 0 || rb == 0x0200,
        back == 0 || back == 0x0020,
        start == 0 || start == 0x0010,
        lt == 0 || lt == 0x0040,
        rt == 0 || rt == 0x0080,
        guide == 0 || guide == 0x0400,
        up == 0 || up == 0x0001,
        down == 0 || down == 0x0002,
        left == 0 || left == 0x0004,
        right == 0 || right == 0x0008,
    ensures
        v as int == a + b + x + y + lb + rb + back + start + lt + rt + guide + up + down + left + right,
        (v & 0x1000 != 0) == (a != 0),
        (v & 0x2000 != 0) == (b != 0),
        (v & 0x4000 != 0) == (x != 0),
        (v & 0x8000 != 0) == (y != 0),
        (v & 0x0100 != 0) == (lb != 0),
        (v & 0x0200 != 0) == (rb != 0),
        (v & 0x0020 != 0) == (back != 0),
        (v & 0x0010 != 0) == (start != 0),
        (v & 0x0040 != 0) == (lt != 0),
        (v & 0x0080 != 0) == (rt != 0),
        (v & 0x0400 != 0) == (guide != 0),
        (v & 0x0001 != 0) == (up != 0),
        (v & 0x0002 != 0) == (down != 0),
        (v & 0x0004 != 0) == (left != 0),
        (v & 0x0008 != 0) == (right != 0),
        v & 0x0800 == 0,
{
}

proof fn lemma_flag_bit(pressed: bool, bit: u16)
    requires
        bit != 0,
    ensures
        flag_bit(pressed, bit) == 0 || flag_bit(pressed, bit) == bit,
        (flag_bit(pressed, bit) != 0) == pressed,
        flag_bit(pressed, bit) as u16 == flag_bit(pressed, bit),
{
    reveal(flag_bit);
}

/// Whether a button bit is set in the report of a controller state.
pub open spec fn x360_bit_set(state: ControllerState, bit: u16) -> bool {
    (x360_buttons(state) as u16) & bit != 0
}

#[verifier::rlimit(40)]
proof fn lemma_flag_sum_bits(
    a: bool,
    b: bool,
    x: bool,
    y: bool,
    lb: bool,
    rb: bool,
    back: bool,
    start: bool,
    lt: bool,
    rt: bool,
    guide: bool,
    up: bool,
    down: bool,
    left: bool,
    right: bool,
)
    ensures
        ({
            let v = flag_sum(a, b, x, y, lb, rb, back, start, lt, rt, guide, up, down, left, right)
                as u16;
            &&& (v & X360_A != 0) == a
            &&& (v & X360_B != 0) == b
            &&& (v & X360_X != 0) == x
            &&& (v & X360_Y != 0) == y
            &&& (v & X360_LEFT_SHOULDER != 0) == lb
            &&& (v & X360_RIGHT_SHOULDER != 0) == rb
            &&& (v & X360_BACK != 0) == back
            &&& (v & X360_START != 0) == start
            &&& (v & X360_LEFT_THUMB != 0) == lt
            &&& (v & X360_RIGHT_THUMB != 0) == rt
            &&& (v & X360_GUIDE != 0) == guide
            &&& (v & X360_DPAD_UP != 0) == up
            &&& (v & X360_DPAD_DOWN != 0) == down
            &&& (v & X360_DPAD_LEFT != 0) == left
            &&& (v & X360_DPAD_RIGHT != 0) == right
            &&& v & 0x0800 == 0
        }),
{
    lemma_flag_bit(a, X360_A);
    lemma_flag_bit(b, X360_B);
    lemma_flag_bit(x, X360_X);
    lemma_flag_bit(y, X360_Y);
    lemma_flag_bit(lb, X360_LEFT_SHOULDER);
    lemma_flag_bit(rb, X360_RIGHT_SHOULDER);
    lemma_flag_bit(back, X360_BACK);
    lemma_flag_bit(start, X360_START);
    lemma_flag_bit(lt, X360_LEFT_THUMB);
    lemma_flag_bit(rt, X360_RIGHT_THUMB);
    lemma_flag_bit(guide, X360_GUIDE);
    lemma_flag_bit(up, X360_DPAD_UP);
    lemma_flag_bit(down, X360_DPAD_DOWN);
    lemma_flag_bit(left, X360_DPAD_LEFT);
    lemma_flag_bit(right, X360_DPAD_RIGHT);
    let fa = flag_bit(a, X360_A) as u16;
    let fb = flag_bit(b, X360_B) as u16;
    let fx = flag_bit(x, X360_X) as u16;
    let fy = flag_bit(y, X360_Y) as u16;
    let flb = flag_bit(lb, X360_LEFT_SHOULDER) as u16;
    let frb = flag_bit(rb, X360_RIGHT_SHOULDER) as u16;
    let fback = flag_bit(back, X360_BACK) as u16;
    let fstart = flag_bit(start, X360_START) as u16;
    let flt = flag_bit(lt, X360_LEFT_THUMB) as u16;
    let frt = flag_bit(rt, X360_RIGHT_THUMB) as u16;
    let fguide = flag_bit(guide, X360_GUIDE) as u16;
    let fup = flag_bit(up, X360_DPAD_UP) as u16;
    let fdown = flag_bit(down, X360_DPAD_DOWN) as u16;
    let fleft = flag_bit(left, X360_DPAD_LEFT) as u16;
    let fright = flag_bit(right, X360_DPAD_RIGHT) as u16;
    let v = fa | fb | fx | fy | flb | frb | fback | fstart | flt | frt | fguide | fup | fdown
        | fleft | fright;
    lemma_disjoint_flag_bits(
        v,
        fa,
        fb,
        fx,
        fy,
        flb,
        frb,
        fback,
        fstart,
        flt,
        frt,
        fguide,
        fup,
        fdown,
        fleft,
        fright,
    );
    let sum = flag_sum(a, b, x, y, lb, rb, back, start, lt, rt, guide, up, down, left, right);
    assert(sum == v as int);
    assert(sum as u16 == v);
}

/// Each Xbox 360 button bit of a report is set exactly when the control it
/// stands for is pressed, and the unused bit is never set.
pub proof fn lemma_x360_button_bits(state: ControllerState)
    ensures
        x360_bit_set(state, X360_A) == state.buttons.cross,
        x360_bit_set(state, X360_B) == state.buttons.circle,
        x360_bit_set(state, X360_X) == state.buttons.square,
        x360_bit_set(state, X360_Y) == state.buttons.triangle,
        x360_bit_set(state, X360_LEFT_SHOULDER) == state.buttons.l1,
        x360_bit_set(state, X360_RIGHT_SHOULDER) == state.buttons.r1,
        x360_bit_set(state, X360_BACK) == state.buttons.create,
        x360_bit_set(state, X360_START) == state.buttons.options,
        x360_bit_set(state, X360_LEFT_THUMB) == state.buttons.l3,
        x360_bit_set(state, X360_RIGHT_THUMB) == state.buttons.r3,
        x360_bit_set(state, X360_GUIDE) == state.buttons.ps,
        x360_bit_set(state, X360_DPAD_UP) == state.dpad.spec_up(),
        x360_bit_set(state, X360_DPAD_DOWN) == state.dpad.spec_down(),
        x360_bit_set(state, X360_DPAD_LEFT) == state.dpad.spec_left(),
        x360_bit_set(state, X360_DPAD_RIGHT) == state.dpad.spec_right(),
        !x360_bit_set(state, 0x0800),
{
    lemma_flag_sum_bits(
        state.buttons.cross,
        state.buttons.circle,
        state.buttons.square,
        state.buttons.triangle,
        state.buttons.l1,
        state.buttons.r1,
        state.buttons.create,
        state.buttons.options,
        state.buttons.l3,
        state.buttons.r3,
        state.buttons.ps,
        state.dpad.spec_up(),
        state.dpad.spec_down(),
        state.dpad.spec_left(),
        state.dpad.spec_right(),
    );
}

} // verus!

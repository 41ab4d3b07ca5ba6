//! Controller state model and the jump-assist engine.
//!
//! The engine watches the configured jump button.  On a rising edge it runs a
//! short sequence: the movement stick is passed through while the jump
//! overlaps it, then held at neutral for a while, then restored, and a guard
//! interval keeps a new sequence from starting too early.
//!
//! Time is given as a monotonic clock reading in nanoseconds.
use vstd::prelude::*;

verus! {

/// Nanoseconds in one millisecond.
pub const NANOS_PER_MILLI: u64 = 1_000_000;

#[derive(Clone, Copy, Debug, PartialEq, Eq, Structural)]
pub enum AssistPhase {
    Idle,
    JumpPressed,
    Neutralizing,
    RestoringMovement,
}

impl Default for AssistPhase {
    fn default() -> (r: Self)
        ensures
            r == AssistPhase::Idle,
    {
        AssistPhase::Idle
    }
}

#[derive(Clone, Copy, Debug, PartialEq, Eq, Structural)]
pub enum JumpButton {
    Circle,
    Cross,
    Square,
    Triangle,
    L1,
    R1,
    L2Button,
    R2Button,
    L3,
    R3,
    Create,
    Options,
    Touchpad,
    Ps,
}

impl Default for JumpButton {
    fn default() -> (r: Self)
        ensures
            r == JumpButton::Circle,
    {
        JumpButton::Circle
    }
}

/// Number of jump buttons.
pub const JUMP_BUTTON_COUNT: u32 = 14;

/// Bits `i` and `j` of a single-bit mask overlap exactly when `i == j`.
pub proof fn lemma_single_bits_disjoint(i: u32, j: u32)
    requires
        i < 32,
        j < 32,
    ensures
        ((1u32 << i) & (1u32 << j) != 0) == (i == j),
{
    assert(i < 32 && j < 32 ==> (((1u32 << i) & (1u32 << j) != 0) == (i == j))) by (bit_vector);
}

/// Setting bit `i` of `m` leaves every other bit of `m` as it was.
proof fn lemma_or_bit_other(m: u32, i: u32, j: u32)
    requires
        i < 32,
        j < 32,
        i != j,
    ensures
        ((m | (1u32 << i)) & (1u32 << j) != 0) == (m & (1u32 << j) != 0),
{
    assert(i < 32 && j < 32 && i != j ==> (((m | (1u32 << i)) & (1u32 << j) != 0) == (m & (1u32
        << j) != 0))) by (bit_vector);
}

/// Setting bit `i` of `m` makes bit `i` set.
proof fn lemma_or_bit_same(m: u32, i: u32)
    requires
        i < 32,
    ensures
        (m | (1u32 << i)) & (1u32 << i) != 0,
{
    assert(i < 32 ==> (m | (1u32 << i)) & (1u32 << i) != 0) by (bit_vector);
}

/// A mask below `1 << i` has no bit at or above `i`.
proof fn lemma_below_has_no_high_bit(m: u32, i: u32, j: u32)
    requires
        i <= j,
        j < 32,
        m < (1u32 << i),
    ensures
        m & (1u32 << j) == 0,
{
    assert(i <= j && j < 32 && m < (1u32 << i) ==> m & (1u32 << j) == 0) by (bit_vector);
}

/// Growing a mask below `1 << i` by bit `i` keeps it below `1 << (i + 1)`.
proof fn lemma_or_bit_bound(m: u32, i: u32)
    requires
        i < 31,
        m < (1u32 << i),
    ensures
        m | (1u32 << i) < (1u32 << ((i + 1) as u32)),
        m < (1u32 << ((i + 1) as u32)),
{
    assert(i < 31 && m < (1u32 << i) ==> m | (1u32 << i) < (1u32 << ((i + 1) as u32))) by (bit_vector);
    assert(i < 31 && m < (1u32 << i) ==> m < (1u32 << ((i + 1) as u32))) by (bit_vector);
}

impl JumpButton {
    /// Position of the button in the list of all jump buttons.
    pub open spec fn spec_index(self) -> u32 {
        match self {
            JumpButton::Circle => 0,
            JumpButton::Cross => 1,
            JumpButton::Square => 2,
            JumpButton::Triangle => 3,
            JumpButton::L1 => 4,
            JumpButton::R1 => 5,
            JumpButton::L2Button => 6,
            JumpButton::R2Button => 7,
            JumpButton::L3 => 8,
            JumpButton::R3 => 9,
            JumpButton::Create => 10,
            JumpButton::Options => 11,
            JumpButton::Touchpad => 12,
            JumpButton::Ps => 13,
        }
    }

    /// The button at position `i` of the list of all jump buttons.
    pub open spec fn spec_from_index(i: u32) -> JumpButton {
        if i == 0 {
            JumpButton::Circle
        } else if i == 1 {
            JumpButton::Cross
        } else if i == 2 {
            JumpButton::Square
        } else if i == 3 {
            JumpButton::Triangle
        } else if i == 4 {
            JumpButton::L1
        } else if i == 5 {
            JumpButton::R1
        } else if i == 6 {
            JumpButton::L2Button
        } else if i == 7 {
            JumpButton::R2Button
        } else if i == 8 {
            JumpButton::L3
        } else if i == 9 {
            JumpButton::R3
        } else if i == 10 {
            JumpButton::Create
        } else if i == 11 {
            JumpButton::Options
        } else if i == 12 {
            JumpButton::Touchpad
        } else {
            JumpButton::Ps
        }
    }

    /// The single-bit mask of the button.
    pub open spec fn spec_capture_mask(self) -> u32 {
        1u32 << self.spec_index()
    }

    pub open spec fn spec_label(self) -> Seq<char> {
        match self {
            JumpButton::Circle => "Circle"@,
            JumpButton::Cross => "Cross"@,
            JumpButton::Square => "Square"@,
            JumpButton::Triangle => "Triangle"@,
            JumpButton::L1 => "L1"@,
            JumpButton::R1 => "R1"@,
            JumpButton::L2Button => "L2 click"@,
            JumpButton::R2Button => "R2 click"@,
            JumpButton::L3 => "L3"@,
            JumpButton::R3 => "R3"@,
            JumpButton::Create => "Create"@,
            JumpButton::Options => "Options"@,
            JumpButton::Touchpad => "Touchpad"@,
            JumpButton::Ps => "PS"@,
        }
    }

    pub fn index(self) -> (r: u32)
        ensures
            r == self.spec_index(),
            r < JUMP_BUTTON_COUNT,
    {
        match self {
            JumpButton::Circle => 0,
            JumpButton::Cross => 1,
            JumpButton::Square => 2,
            JumpButton::Triangle => 3,
            JumpButton::L1 => 4,
            JumpButton::R1 => 5,
            JumpButton::L2Button => 6,
            JumpButton::R2Button => 7,
            JumpButton::L3 => 8,
            JumpButton::R3 => 9,
            JumpButton::Create => 10,
            JumpButton::Options => 11,
            JumpButton::Touchpad => 12,
            JumpButton::Ps => 13,
        }
    }

    pub fn from_index(i: u32) -> (r: JumpButton)
        requires
            i < JUMP_BUTTON_COUNT,
        ensures
            r == JumpButton::spec_from_index(i),
            r.spec_index() == i,
    {
        if i == 0 {
            JumpButton::Circle
        } else if i == 1 {
            JumpButton::Cross
        } else if i == 2 {
            JumpButton::Square
        } else if i == 3 {
            JumpButton::Triangle
        } else if i == 4 {
            JumpButton::L1
        } else if i == 5 {
            JumpButton::R1
        } else if i == 6 {
            JumpButton::L2Button
        } else if i == 7 {
            JumpButton::R2Button
        } else if i == 8 {
            JumpButton::L3
        } else if i == 9 {
            JumpButton::R3
        } else if i == 10 {
            JumpButton::Create
        } else if i == 11 {
            JumpButton::Options
        } else if i == 12 {
            JumpButton::Touchpad
        } else {
            JumpButton::Ps
        }
    }

    /// All jump buttons, in the order of their capture bits.
    pub fn all() -> (r: Vec<JumpButton>)
        ensures
            r@.len() == JUMP_BUTTON_COUNT,
            forall|i: int| 0 <= i < r@.len() ==> (#[trigger] r@[i]).spec_index() == i,
    {
        let mut r: Vec<JumpButton> = Vec::new();
        let mut i: u32 = 0;
        while i < JUMP_BUTTON_COUNT
            invariant
                i <= JUMP_BUTTON_COUNT,
                r@.len() == i,
                forall|k: int| 0 <= k < r@.len() ==> (#[trigger] r@[k]).spec_index() == k,
            decreases JUMP_BUTTON_COUNT - i,
        {
            r.push(JumpButton::from_index(i));
            i = i + 1;
        }
        r
    }

    pub fn label(self) -> (r: &'static str)
        ensures
            r@ == self.spec_label(),
    {
        match self {
            JumpButton::Circle => "Circle",
            JumpButton::Cross => "Cross",
            JumpButton::Square => "Square",
            JumpButton::Triangle => "Triangle",
            JumpButton::L1 => "L1",
            JumpButton::R1 => "R1",
            JumpButton::L2Button => "L2 click",
            JumpButton::R2Button => "R2 click",
            JumpButton::L3 => "L3",
            JumpButton::R3 => "R3",
            JumpButton::Create => "Create",
            JumpButton::Options => "Options",
            JumpButton::Touchpad => "Touchpad",
            JumpButton::Ps => "PS",
        }
    }

    pub fn capture_mask(self) -> (r: u32)
        ensures
            r == self.spec_capture_mask(),
    {
        1u32 << self.index()
    }

    /// The first button, in capture-bit order, whose bit is set in `mask`.
    pub fn from_capture_mask(mask: u32) -> (res: Option<JumpButton>)
        ensures
            res == first_button_in_mask(mask, 0),
    {
        let mut i: u32 = 0;
        while i < JUMP_BUTTON_COUNT
            invariant
                i <= JUMP_BUTTON_COUNT,
                first_button_in_mask(mask, 0) == first_button_in_mask(mask, i),
            decreases JUMP_BUTTON_COUNT - i,
        {
            let b = JumpButton::from_index(i);
            if mask & b.capture_mask() != 0 {
                return Some(b);
            }
            i = i + 1;
        }
        None
    }
}

/// The first button at position `i` or later, in capture-bit order, whose bit
/// is set in `mask`.
pub open spec fn first_button_in_mask(mask: u32, i: u32) -> Option<JumpButton>
    decreases JUMP_BUTTON_COUNT - i,
{
    if i >= JUMP_BUTTON_COUNT {
        None
    } else if mask & (1u32 << i) != 0 {
        Some(JumpButton::spec_from_index(i))
    } else {
        first_button_in_mask(mask, (i + 1) as u32)
    }
}

/// The first pressed jump button at position `i` or later, in capture-bit
/// order.
pub open spec fn first_pressed_button(buttons: Buttons, i: u32) -> Option<JumpButton>
    decreases JUMP_BUTTON_COUNT - i,
{
    if i >= JUMP_BUTTON_COUNT {
        None
    } else if buttons.spec_pressed(JumpButton::spec_from_index(i)) {
        Some(JumpButton::spec_from_index(i))
    } else {
        first_pressed_button(buttons, (i + 1) as u32)
    }
}

proof fn lemma_from_index_index(i: u32)
    requires
        i < JUMP_BUTTON_COUNT,
    ensures
        JumpButton::spec_from_index(i).spec_index() == i,
{
}

proof fn lemma_round_trip_from(b: JumpButton, i: u32)
    requires
        i <= b.spec_index(),
    ensures
        first_button_in_mask(b.spec_capture_mask(), i) == Some(b),
    decreases b.spec_index() - i,
{
    lemma_single_bits_disjoint(b.spec_index(), i);
    if i < b.spec_index() {
        lemma_round_trip_from(b, (i + 1) as u32);
    }
}

/// Reading a button's own mask back gives the button.
pub proof fn lemma_capture_mask_round_trip(b: JumpButton)
    ensures
        first_button_in_mask(b.spec_capture_mask(), 0) == Some(b),
{
    lemma_round_trip_from(b, 0);
}

proof fn lemma_first_pressed_from(buttons: Buttons, mask: u32, i: u32)
    requires
        i <= JUMP_BUTTON_COUNT,
        forall|c: JumpButton| (mask & #[trigger] c.spec_capture_mask() != 0) == buttons.spec_pressed(c),
    ensures
        first_button_in_mask(mask, i) == first_pressed_button(buttons, i),
    decreases JUMP_BUTTON_COUNT - i,
{
    if i < JUMP_BUTTON_COUNT {
        let c = JumpButton::spec_from_index(i);
        lemma_from_index_index(i);
        assert((mask & c.spec_capture_mask() != 0) == buttons.spec_pressed(c));
        lemma_first_pressed_from(buttons, mask, (i + 1) as u32);
    }
}

/// The first button of the capture mask of pressed buttons is the first
/// pressed jump button.
pub proof fn lemma_capture_mask_first_pressed(buttons: Buttons, mask: u32)
    requires
        forall|c: JumpButton| (mask & #[trigger] c.spec_capture_mask() != 0) == buttons.spec_pressed(c),
    ensures
        first_button_in_mask(mask, 0) == first_pressed_button(buttons, 0),
{
    lemma_first_pressed_from(buttons, mask, 0);
}

proof fn lemma_first_in_mask_from(mask: u32, i: u32)
    requires
        i <= JUMP_BUTTON_COUNT,
    ensures
        first_button_in_mask(mask, i).is_none() == (forall|j: u32|
            i <= j < JUMP_BUTTON_COUNT ==> #[trigger] (mask & (1u32 << j)) == 0),
        first_button_in_mask(mask, i) matches Some(b) ==> {
            &&& i <= b.spec_index() < JUMP_BUTTON_COUNT
            &&& mask & b.spec_capture_mask() != 0
            &&& forall|j: u32| i <= j < b.spec_index() ==> #[trigger] (mask & (1u32 << j)) == 0
        },
    decreases JUMP_BUTTON_COUNT - i,
{
    if i < JUMP_BUTTON_COUNT {
        lemma_from_index_index(i);
        lemma_first_in_mask_from(mask, (i + 1) as u32);
    }
}

/// The low bits of a mask that name jump buttons.
pub open spec fn jump_button_bits(mask: u32) -> u32 {
    mask & 0x3FFF
}

/// For any mask: no button when none of its jump-button bits (the low
/// fourteen) is set; otherwise the button of its lowest set bit.  Higher bits
/// are ignored.
pub proof fn lemma_from_capture_mask_lowest_bit(mask: u32)
    ensures
        first_button_in_mask(mask, 0).is_none() == (jump_button_bits(mask) == 0),
        first_button_in_mask(mask, 0) matches Some(b) ==> {
            &&& mask & b.spec_capture_mask() != 0
            &&& forall|j: u32| j < b.spec_index() ==> #[trigger] (mask & (1u32 << j)) == 0
        },
        first_button_in_mask(mask, 0) == first_button_in_mask(jump_button_bits(mask), 0),
{
    lemma_first_in_mask_from(mask, 0);
    lemma_first_in_mask_from(jump_button_bits(mask), 0);
    assert forall|j: u32| j < JUMP_BUTTON_COUNT implies #[trigger] (mask & (1u32 << j)) == (
    jump_button_bits(mask) & (1u32 << j)) by {
        assert(j < 14 ==> (mask & (1u32 << j)) == ((mask & 0x3FFF) & (1u32 << j))) by (bit_vector);
    }
    if jump_button_bits(mask) == 0 {
        assert forall|j: u32| 0 <= j < JUMP_BUTTON_COUNT implies #[trigger] (mask & (1u32 << j))
            == 0 by {
            assert(j < 14 && (mask & 0x3FFF) == 0 ==> (mask & (1u32 << j)) == 0) by (bit_vector);
        }
    } else {
        if first_button_in_mask(mask, 0).is_none() {
            assert(mask & (1u32 << 0u32) == 0);
            assert(mask & (1u32 << 1u32) == 0);
            assert(mask & (1u32 << 2u32) == 0);
            assert(mask & (1u32 << 3u32) == 0);
            assert(mask & (1u32 << 4u32) == 0);
            assert(mask & (1u32 << 5u32) == 0);
            assert(mask & (1u32 << 6u32) == 0);
            assert(mask & (1u32 << 7u32) == 0);
            assert(mask & (1u32 << 8u32) == 0);
            assert(mask & (1u32 << 9u32) == 0);
            assert(mask & (1u32 << 10u32) == 0);
            assert(mask & (1u32 << 11u32) == 0);
            assert(mask & (1u32 << 12u32) == 0);
            assert(mask & (1u32 << 13u32) == 0);
            assert((mask & 0x3FFF) == 0) by (bit_vector)
                requires
                    mask & (1u32 << 0u32) == 0,
                    mask & (1u32 << 1u32) == 0,
                    mask & (1u32 << 2u32) == 0,
                    mask & (1u32 << 3u32) == 0,
                    mask & (1u32 << 4u32) == 0,
                    mask & (1u32 << 5u32) == 0,
                    mask & (1u32 << 6u32) == 0,
                    mask & (1u32 << 7u32) == 0,
                    mask & (1u32 << 8u32) == 0,
                    mask & (1u32 << 9u32) == 0,
                    mask & (1u32 << 10u32) == 0,
                    mask & (1u32 << 11u32) == 0,
                    mask & (1u32 << 12u32) == 0,
                    mask & (1u32 << 13u32) == 0,
            ;
        }
    }
    lemma_same_first_from(mask, jump_button_bits(mask), 0);
}

proof fn lemma_same_first_from(a: u32, b: u32, i: u32)
    requires
        i <= JUMP_BUTTON_COUNT,
        forall|j: u32| j < JUMP_BUTTON_COUNT ==> #[trigger] (a & (1u32 << j)) == (b & (1u32 << j)),
    ensures
        first_button_in_mask(a, i) == first_button_in_mask(b, i),
    decreases JUMP_BUTTON_COUNT - i,
{
    if i < JUMP_BUTTON_COUNT {
        assert((a & (1u32 << i)) == (b & (1u32 << i)));
        lemma_same_first_from(a, b, (i + 1) as u32);
    }
}

#[derive(Clone, Copy, Debug, PartialEq, Eq, Structural)]
pub enum DpadDirection {
    Neutral,
    North,
    NorthEast,
    East,
    SouthEast,
    South,
    SouthWest,
    West,
    NorthWest,
}

impl Default for DpadDirection {
    fn default() -> (r: Self)
        ensures
            r == DpadDirection::Neutral,
    {
        DpadDirection::Neutral
    }
}

/// The direction of a hat-switch value: 0 is north, counting clockwise in
/// eighths; any other value is neutral.
pub open spec fn hat_direction(value: int) -> DpadDirection {
    if value == 0 {
        DpadDirection::North
    } else if value == 1 {
        DpadDirection::NorthEast
    } else if value == 2 {
        DpadDirection::East
    } else if value == 3 {
        DpadDirection::SouthEast
    } else if value == 4 {
        DpadDirection::South
    } else if value == 5 {
        DpadDirection::SouthWest
    } else if value == 6 {
        DpadDirection::West
    } else if value == 7 {
        DpadDirection::NorthWest
    } else {
        DpadDirection::Neutral
    }
}

/// The direction pressed by four digital switches; combinations that are not
/// one direction or two neighbouring ones are neutral.
pub open spec fn composed_direction(up: bool, down: bool, left: bool, right: bool) -> DpadDirection {
    if up && !down && !left && !right {
        DpadDirection::North
    } else if up && !down && !left && right {
        DpadDirection::NorthEast
    } else if !up && !down && !left && right {
        DpadDirection::East
    } else if !up && down && !left && right {
        DpadDirection::SouthEast
    } else if !up && down && !left && !right {
        DpadDirection::South
    } else if !up && down && left && !right {
        DpadDirection::SouthWest
    } else if !up && !down && left && !right {
        DpadDirection::West
    } else if up && !down && left && !right {
        DpadDirection::NorthWest
    } else {
        DpadDirection::Neutral
    }
}

/// The direction pressed by four digital switches.
pub fn compose_dpad(up: bool, down: bool, left: bool, right: bool) -> (r: DpadDirection)
    ensures
        r == composed_direction(up, down, left, right),
{
    if up && !down && !left && !right {
        DpadDirection::North
    } else if up && !down && !left && right {
        DpadDirection::NorthEast
    } else if !up && !down && !left && right {
        DpadDirection::East
    } else if !up && down && !left && right {
        DpadDirection::SouthEast
    } else if !up && down && !left && !right {
        DpadDirection::South
    } else if !up && down && left && !right {
        DpadDirection::SouthWest
    } else if !up && !down && left && !right {
        DpadDirection::West
    } else if up && !down && left && !right {
        DpadDirection::NorthWest
    } else {
        DpadDirection::Neutral
    }
}

impl DpadDirection {
    pub open spec fn spec_up(self) -> bool {
        self == DpadDirection::North || self == DpadDirection::NorthEast || self
            == DpadDirection::NorthWest
    }

    pub open spec fn spec_down(self) -> bool {
        self == DpadDirection::South || self == DpadDirection::SouthEast || self
            == DpadDirection::SouthWest
    }

    pub open spec fn spec_left(self) -> bool {
        self == DpadDirection::West || self == DpadDirection::NorthWest || self
            == DpadDirection::SouthWest
    }

    pub open spec fn spec_right(self) -> bool {
        self == DpadDirection::East || self == DpadDirection::NorthEast || self
            == DpadDirection::SouthEast
    }

    /// The direction of the low four bits of a hat-switch byte.
    pub fn from_hat(value: u8) -> (r: DpadDirection)
        ensures
            r == hat_direction((value & 0x0f) as int),
    {
        let v = value & 0x0f;
        if v == 0 {
            DpadDirection::North
        } else if v == 1 {
            DpadDirection::NorthEast
        } else if v == 2 {
            DpadDirection::East
        } else if v == 3 {
            DpadDirection::SouthEast
        } else if v == 4 {
            DpadDirection::South
        } else if v == 5 {
            DpadDirection::SouthWest
        } else if v == 6 {
            DpadDirection::West
        } else if v == 7 {
            DpadDirection::NorthWest
        } else {
            DpadDirection::Neutral
        }
    }

    pub fn up(self) -> (r: bool)
        ensures
            r == self.spec_up(),
    {
        match self {
            DpadDirection::North | DpadDirection::NorthEast | DpadDirection::NorthWest => true,
            _ => false,
        }
    }

    pub fn down(self) -> (r: bool)
        ensures
            r == self.spec_down(),
    {
        match self {
            DpadDirection::South | DpadDirection::SouthEast | DpadDirection::SouthWest => true,
            _ => false,
        }
    }

    pub fn left(self) -> (r: bool)
        ensures
            r == self.spec_left(),
    {
        match self {
            DpadDirection::West | DpadDirection::NorthWest | DpadDirection::SouthWest => true,
            _ => false,
        }
    }

    pub fn right(self) -> (r: bool)
        ensures
            r == self.spec_right(),
    {
        match self {
            DpadDirection::East | DpadDirection::NorthEast | DpadDirection::SouthEast => true,
            _ => false,
        }
    }
}

/// Splitting a direction into its four switches and composing them again
/// gives the same direction.
pub proof fn lemma_dpad_decompose_compose(d: DpadDirection)
    ensures
        composed_direction(d.spec_up(), d.spec_down(), d.spec_left(), d.spec_right()) == d,
{
}

/// Every hat-switch value in `0..8` names a direction with at least one
/// switch pressed, and opposite switches are never pressed together.
pub proof fn lemma_hat_directions_consistent(value: int)
    ensures
        (0 <= value < 8) == (hat_direction(value) != DpadDirection::Neutral),
        !(hat_direction(value).spec_up() && hat_direction(value).spec_down()),
        !(hat_direction(value).spec_left() && hat_direction(value).spec_right()),
{
}

#[derive(Clone, Copy, Debug, PartialEq, Eq, Structural)]
pub struct Buttons {
    pub square: bool,
    pub circle: bool,
    pub cross: bool,
    pub triangle: bool,
    pub l1: bool,
    pub r1: bool,
    pub l2_button: bool,
    pub r2_button: bool,
    pub create: bool,
    pub options: bool,
    pub l3: bool,
    pub r3: bool,
    pub ps: bool,
    pub touchpad: bool,
    pub mute: bool,
}

impl Buttons {
    /// No button pressed.
    pub open spec fn spec_released() -> Buttons {
        Buttons {
            square: false,
            circle: false,
            cross: false,
            triangle: false,
            l1: false,
            r1: false,
            l2_button: false,
            r2_button: false,
            create: false,
            options: false,
            l3: false,
            r3: false,
            ps: false,
            touchpad: false,
            mute: false,
        }
    }

    pub open spec fn spec_pressed(self, jump_button: JumpButton) -> bool {
        match jump_button {
            JumpButton::Circle => self.circle,
            JumpButton::Cross => self.cross,
            JumpButton::Square => self.square,
            JumpButton::Triangle => self.triangle,
            JumpButton::L1 => self.l1,
            JumpButton::R1 => self.r1,
            JumpButton::L2Button => self.l2_button,
            JumpButton::R2Button => self.r2_button,
            JumpButton::L3 => self.l3,
            JumpButton::R3 => self.r3,
            JumpButton::Create => self.create,
            JumpButton::Options => self.options,
            JumpButton::Touchpad => self.touchpad,
            JumpButton::Ps => self.ps,
        }
    }

    pub fn pressed(self, jump_button: JumpButton) -> (r: bool)
        ensures
            r == self.spec_pressed(jump_button),
    {
        match jump_button {
            JumpButton::Circle => self.circle,
            JumpButton::Cross => self.cross,
            JumpButton::Square => self.square,
            JumpButton::Triangle => self.triangle,
            JumpButton::L1 => self.l1,
            JumpButton::R1 => self.r1,
            JumpButton::L2Button => self.l2_button,
            JumpButton::R2Button => self.r2_button,
            JumpButton::L3 => self.l3,
            JumpButton::R3 => self.r3,
            JumpButton::Create => self.create,
            JumpButton::Options => self.options,
            JumpButton::Touchpad => self.touchpad,
            JumpButton::Ps => self.ps,
        }
    }

    /// The mask with the capture bit of every pressed jump button set, and no
    /// other bit.
    pub fn capture_mask(self) -> (mask: u32)
        ensures
            forall|b: JumpButton| (mask & #[trigger] b.spec_capture_mask() != 0) == self.spec_pressed(b),
            mask < (1u32 << JUMP_BUTTON_COUNT),
    {
        let mut mask: u32 = 0;
        let mut i: u32 = 0;
        assert(0u32 < (1u32 << 0u32)) by (bit_vector);
        while i < JUMP_BUTTON_COUNT
            invariant
                i <= JUMP_BUTTON_COUNT,
                mask < (1u32 << i),
                forall|b: JumpButton|
                    b.spec_index() < i ==> (mask & #[trigger] b.spec_capture_mask() != 0)
                        == self.spec_pressed(b),
            decreases JUMP_BUTTON_COUNT - i,
        {
            let button = JumpButton::from_index(i);
            let ghost before = mask;
            if self.pressed(button) {
                mask = mask | button.capture_mask();
            }
            proof {
                lemma_or_bit_bound(before, i);
                assert forall|b: JumpButton|
                    b.spec_index() < i + 1 implies (mask & #[trigger] b.spec_capture_mask() != 0)
                    == self.spec_pressed(b) by {
                    if b.spec_index() == i {
                        assert(b == button);
                        if self.spec_pressed(button) {
                            lemma_or_bit_same(before, i);
                        } else {
                            lemma_below_has_no_high_bit(before, i, i);
                        }
                    } else if self.spec_pressed(button) {
                        lemma_or_bit_other(before, i, b.spec_index());
                    }
                }
            }
            i = i + 1;
        }
        mask
    }
}

impl Default for Buttons {
    fn default() -> (r: Self)
        ensures
            r == Buttons::spec_released(),
    {
        Buttons {
            square: false,
            circle: false,
            cross: false,
            triangle: false,
            l1: false,
            r1: false,
            l2_button: false,
            r2_button: false,
            create: false,
            options: false,
            l3: false,
            r3: false,
            ps: false,
            touchpad: false,
            mute: false,
        }
    }
}

#[derive(Clone, Copy, Debug, PartialEq, Eq, Structural)]
pub struct StickState {
    pub raw_x: u8,
    pub raw_y: u8,
}

/// The signed 16-bit axis value of a raw byte whose centre is 128: the upper
/// half is scaled onto `0..=32767` (rounding toward zero), the lower half
/// onto `-32768..0`.
pub open spec fn axis_value(raw: u8) -> int {
    if raw >= 128 {
        ((raw - 128) * 32767) / 127
    } else {
        (raw - 128) * 256
    }
}

/// `value` held to the range of `i16`.
pub open spec fn clamp_i16(value: int) -> int {
    if value > 32767 {
        32767
    } else if value < -32768 {
        -32768
    } else {
        value
    }
}

proof fn lemma_axis_value_bounds(raw: u8)
    ensures
        -32768 <= axis_value(raw) <= 32767,
        raw >= 128 ==> axis_value(raw) >= 0,
{
    if raw >= 128 {
        let d: int = raw - 128;
        assert(0 <= d * 32767 <= 127 * 32767) by (nonlinear_arith)
            requires
                0 <= d <= 127,
        ;
        assert((d * 32767) / 127 <= 32767) by (nonlinear_arith)
            requires
                0 <= d * 32767 <= 127 * 32767,
        ;
        assert((d * 32767) / 127 >= 0) by (nonlinear_arith)
            requires
                0 <= d * 32767,
        ;
    }
}

fn axis_from_raw(value: u8) -> (r: i16)
    ensures
        r as int == axis_value(value),
{
    proof {
        lemma_axis_value_bounds(value);
    }
    if value >= 128 {
        let delta: u32 = (value - 128) as u32;
        assert(delta * 32767 <= 127 * 32767) by (nonlinear_arith)
            requires
                delta <= 127,
        ;
        let scaled: u32 = delta * 32767 / 127;
        scaled as i16
    } else {
        // The lower half maps `128` steps onto `32768`: an exact factor of 256.
        let delta: i32 = value as i32 - 128;
        (delta * 256) as i16
    }
}

impl StickState {
    pub open spec fn spec_neutral() -> StickState {
        StickState { raw_x: 128, raw_y: 128 }
    }

    pub open spec fn spec_xinput_x(self) -> int {
        axis_value(self.raw_x)
    }

    pub open spec fn spec_xinput_y(self) -> int {
        clamp_i16(-axis_value(self.raw_y))
    }

    pub fn new(raw_x: u8, raw_y: u8) -> (r: Self)
        ensures
            r.raw_x == raw_x,
            r.raw_y == raw_y,
    {
        StickState { raw_x, raw_y }
    }

    pub fn neutral() -> (r: Self)
        ensures
            r == StickState::spec_neutral(),
    {
        StickState::new(128, 128)
    }

    pub fn xinput_x(self) -> (r: i16)
        ensures
            r as int == self.spec_xinput_x(),
    {
        axis_from_raw(self.raw_x)
    }

    pub fn xinput_y(self) -> (r: i16)
        ensures
            r as int == self.spec_xinput_y(),
    {
        let value: i32 = -(axis_from_raw(self.raw_y) as i32);
        if value > 32767 {
            32767
        } else if value < -32768 {
            -32768
        } else {
            value as i16
        }
    }
}

impl Default for StickState {
    fn default() -> (r: Self)
        ensures
            r.raw_x == 0 && r.raw_y == 0,
    {
        StickState { raw_x: 0, raw_y: 0 }
    }
}

/// The neutral stick reads as zero on both axes, and the axis scale is
/// monotonic: a larger raw byte never gives a smaller axis value.
pub proof fn lemma_axis_scale(a: u8, b: u8)
    ensures
        axis_value(128) == 0,
        axis_value(0) == -32768,
        axis_value(255) == 32767,
        a <= b ==> axis_value(a) <= axis_value(b),
{
    assert((127int * 32767) / 127 == 32767) by (nonlinear_arith);
    if a <= b {
        if a >= 128 {
            let da: int = a - 128;
            let db: int = b - 128;
            assert((da * 32767) / 127 <= (db * 32767) / 127) by (nonlinear_arith)
                requires
                    0 <= da <= db,
            ;
        } else if b >= 128 {
            lemma_axis_value_bounds(b);
        }
    }
}

#[derive(Clone, Copy, Debug, PartialEq, Eq, Structural)]
pub struct ControllerState {
    pub left_stick: StickState,
    pub right_stick: StickState,
    pub l2: u8,
    pub r2: u8,
    pub dpad: DpadDirection,
    pub buttons: Buttons,
}

impl Default for ControllerState {
    fn default() -> (r: Self)
        ensures
            r.left_stick.raw_x == 0 && r.left_stick.raw_y == 0,
            r.right_stick.raw_x == 0 && r.right_stick.raw_y == 0,
            r.l2 == 0 && r.r2 == 0,
            r.dpad == DpadDirection::Neutral,
            r.buttons == Buttons::spec_released(),
    {
        ControllerState {
            left_stick: StickState::default(),
            right_stick: StickState::default(),
            l2: 0,
            r2: 0,
            dpad: DpadDirection::default(),
            buttons: Buttons::default(),
        }
    }
}

/// Timing of the assist sequence.  The movement dead zone, a floating-point
/// threshold, is applied by the caller, which passes whether the stick counts
/// as moving.
#[derive(Clone, Copy, Debug, PartialEq, Eq, Structural)]
pub struct AssistConfig {
    pub jump_button: JumpButton,
    pub jump_overlap_ms: u64,
    pub movement_release_ms: u64,
    pub retrigger_guard_ms: u64,
    pub only_assist_while_moving: bool,
}

impl AssistConfig {
    /// Total length of one sequence, in nanoseconds.
    pub open spec fn spec_total_ns(self) -> int {
        (self.jump_overlap_ms + self.movement_release_ms + self.retrigger_guard_ms)
            * NANOS_PER_MILLI
    }

    /// The configuration with assistance restricted to a moving stick.
    pub fn normalized(self) -> (r: AssistConfig)
        ensures
            r == (AssistConfig { only_assist_while_moving: true, ..self }),
    {
        AssistConfig { only_assist_while_moving: true, ..self }
    }
}

impl Default for AssistConfig {
    fn default() -> (r: Self)
        ensures
            r == (AssistConfig {
                jump_button: JumpButton::Circle,
                jump_overlap_ms: 8,
                movement_release_ms: 20,
                retrigger_guard_ms: 8,
                only_assist_while_moving: true,
            }),
    {
        AssistConfig {
            jump_button: JumpButton::Circle,
            jump_overlap_ms: 8,
            movement_release_ms: 20,
            retrigger_guard_ms: 8,
            only_assist_while_moving: true,
        }
    }
}

/// The configuration with assistance restricted to a moving stick.
pub fn normalize_assist_config(config: AssistConfig) -> (r: AssistConfig)
    ensures
        r == (AssistConfig { only_assist_while_moving: true, ..config }),
{
    config.normalized()
}

/// The deadlines of one assist sequence, as clock readings in nanoseconds.
#[derive(Clone, Copy, Debug, PartialEq, Eq, Structural)]
pub struct JumpSequence {
    pub started_at: u64,
    pub movement_hold_until: u64,
    pub neutral_until: u64,
    pub finished_at: u64,
}

impl JumpSequence {
    pub open spec fn spec_new(started_at: u64, config: AssistConfig) -> JumpSequence {
        let hold = started_at + config.jump_overlap_ms * NANOS_PER_MILLI;
        let neutral = hold + config.movement_release_ms * NANOS_PER_MILLI;
        let finished = neutral + config.retrigger_guard_ms * NANOS_PER_MILLI;
        JumpSequence {
            started_at,
            movement_hold_until: hold as u64,
            neutral_until: neutral as u64,
            finished_at: finished as u64,
        }
    }

    pub open spec fn spec_phase(self, now: u64) -> AssistPhase {
        if now < self.movement_hold_until {
            AssistPhase::JumpPressed
        } else if now < self.neutral_until {
            AssistPhase::Neutralizing
        } else if now < self.finished_at {
            AssistPhase::RestoringMovement
        } else {
            AssistPhase::Idle
        }
    }

    pub open spec fn spec_movement_suppressed(self, now: u64) -> bool {
        now >= self.movement_hold_until && now < self.neutral_until
    }

    pub open spec fn spec_is_finished(self, now: u64) -> bool {
        now >= self.finished_at
    }

    /// Whole milliseconds elapsed since the start, zero before it.
    pub open spec fn spec_age_ms(self, now: u64) -> u128 {
        if now >= self.started_at {
            ((now - self.started_at) / (NANOS_PER_MILLI as int)) as u128
        } else {
            0
        }
    }

    fn new(started_at: u64, config: AssistConfig) -> (r: JumpSequence)
        requires
            started_at + config.spec_total_ns() <= u64::MAX,
        ensures
            r == JumpSequence::spec_new(started_at, config),
    {
        proof {
            assert(config.jump_overlap_ms * NANOS_PER_MILLI + config.movement_release_ms
                * NANOS_PER_MILLI + config.retrigger_guard_ms * NANOS_PER_MILLI
                == config.spec_total_ns()) by (nonlinear_arith);
            assert(config.jump_overlap_ms * NANOS_PER_MILLI >= 0) by (nonlinear_arith);
            assert(config.movement_release_ms * NANOS_PER_MILLI >= 0) by (nonlinear_arith);
            assert(config.retrigger_guard_ms * NANOS_PER_MILLI >= 0) by (nonlinear_arith);
        }
        let movement_hold_until = started_at + config.jump_overlap_ms * NANOS_PER_MILLI;
        let neutral_until = movement_hold_until + config.movement_release_ms * NANOS_PER_MILLI;
        let finished_at = neutral_until + config.retrigger_guard_ms * NANOS_PER_MILLI;
        JumpSequence { started_at, movement_hold_until, neutral_until, finished_at }
    }

    fn phase(self, now: u64) -> (r: AssistPhase)
        ensures
            r == self.spec_phase(now),
    {
        if now < self.movement_hold_until {
            AssistPhase::JumpPressed
        } else if now < self.neutral_until {
            AssistPhase::Neutralizing
        } else if now < self.finished_at {
            AssistPhase::RestoringMovement
        } else {
            AssistPhase::Idle
        }
    }

    fn movement_suppressed(self, now: u64) -> (r: bool)
        ensures
            r == self.spec_movement_suppressed(now),
    {
        now >= self.movement_hold_until && now < self.neutral_until
    }

    fn is_finished(self, now: u64) -> (r: bool)
        ensures
            r == self.spec_is_finished(now),
    {
        now >= self.finished_at
    }

    fn age_ms(self, now: u64) -> (r: u128)
        ensures
            r == self.spec_age_ms(now),
    {
        if now >= self.started_at {
            ((now - self.started_at) / NANOS_PER_MILLI) as u128
        } else {
            0
        }
    }
}

/// The observable state of an [`AssistEngine`].
#[derive(Clone, Copy, Debug, PartialEq, Eq, Structural)]
pub struct AssistEngineView {
    pub sequence: Option<JumpSequence>,
    pub previous_jump_pressed: bool,
    pub phase: AssistPhase,
    pub jump_count: u64,
    pub last_sequence_age_ms: u128,
}

impl AssistEngineView {
    pub open spec fn initial() -> AssistEngineView {
        AssistEngineView {
            sequence: None,
            previous_jump_pressed: false,
            phase: AssistPhase::Idle,
            jump_count: 0,
            last_sequence_age_ms: 0,
        }
    }

    /// The sequence that survives the start of a step at `now`: a finished
    /// one is dropped.
    pub open spec fn kept_sequence(self, now: u64) -> Option<JumpSequence> {
        match self.sequence {
            Some(s) => if s.spec_is_finished(now) {
                None
            } else {
                Some(s)
            },
            None => None,
        }
    }

    /// Whether a step with these inputs starts a new sequence.
    pub open spec fn starts_sequence(
        self,
        input: ControllerState,
        config: AssistConfig,
        movement_active: bool,
        now: u64,
    ) -> bool {
        let jump_pressed = input.buttons.spec_pressed(config.jump_button);
        let assist_allowed = !config.only_assist_while_moving || movement_active;
        jump_pressed && !self.previous_jump_pressed && assist_allowed && self.kept_sequence(
            now,
        ).is_none()
    }

    /// The state after one step.
    pub open spec fn step(
        self,
        input: ControllerState,
        config: AssistConfig,
        movement_active: bool,
        now: u64,
    ) -> AssistEngineView {
        let started = self.starts_sequence(input, config, movement_active, now);
        let sequence = if started {
            Some(JumpSequence::spec_new(now, config))
        } else {
            self.kept_sequence(now)
        };
        AssistEngineView {
            sequence,
            previous_jump_pressed: input.buttons.spec_pressed(config.jump_button),
            phase: match sequence {
                Some(s) => s.spec_phase(now),
                None => AssistPhase::Idle,
            },
            jump_count: if started {
                if self.jump_count == u64::MAX {
                    self.jump_count
                } else {
                    (self.jump_count + 1) as u64
                }
            } else {
                self.jump_count
            },
            last_sequence_age_ms: match sequence {
                Some(s) => s.spec_age_ms(now),
                None => 0,
            },
        }
    }

    /// The state that one step produces, given the state after that step.
    pub open spec fn output(
        after: AssistEngineView,
        input: ControllerState,
        now: u64,
    ) -> ControllerState {
        match after.sequence {
            Some(s) => if s.spec_movement_suppressed(now) {
                ControllerState { left_stick: StickState::spec_neutral(), ..input }
            } else {
                input
            },
            None => input,
        }
    }
}

/// The jump-assist state machine.
#[derive(Debug)]
pub struct AssistEngine {
    sequence: Option<JumpSequence>,
    previous_jump_pressed: bool,
    phase: AssistPhase,
    jump_count: u64,
    last_sequence_age_ms: u128,
}

impl View for AssistEngine {
    type V = AssistEngineView;

    closed spec fn view(&self) -> AssistEngineView {
        AssistEngineView {
            sequence: self.sequence,
            previous_jump_pressed: self.previous_jump_pressed,
            phase: self.phase,
            jump_count: self.jump_count,
            last_sequence_age_ms: self.last_sequence_age_ms,
        }
    }
}

impl Default for AssistEngine {
    fn default() -> (r: Self)
        ensures
            r@ == AssistEngineView::initial(),
    {
        AssistEngine {
            sequence: None,
            previous_jump_pressed: false,
            phase: AssistPhase::Idle,
            jump_count: 0,
            last_sequence_age_ms: 0,
        }
    }
}

impl AssistEngine {
    pub fn phase(&self) -> (r: AssistPhase)
        ensures
            r == self@.phase,
    {
        self.phase
    }

    pub fn has_pending_sequence(&self) -> (r: bool)
        ensures
            r == self@.sequence.is_some(),
    {
        self.sequence.is_some()
    }

    pub fn jump_count(&self) -> (r: u64)
        ensures
            r == self@.jump_count,
    {
        self.jump_count
    }

    pub fn last_sequence_age_ms(&self) -> (r: u128)
        ensures
            r == self@.last_sequence_age_ms,
    {
        self.last_sequence_age_ms
    }

    /// Back to the state of a fresh engine.
    pub fn reset(&mut self)
        ensures
            final(self)@ == AssistEngineView::initial(),
    {
        *self = AssistEngine::default();
    }

    /// One step of the engine at clock reading `now_ns`.  `movement_active`
    /// says whether the left stick is outside the movement dead zone.  The
    /// output is the input, with the left stick held at neutral while the
    /// running sequence is in its neutralizing window.
    pub fn apply(
        &mut self,
        input: ControllerState,
        config: AssistConfig,
        movement_active: bool,
        now_ns: u64,
    ) -> (output: ControllerState)
        requires
            old(self)@.starts_sequence(input, config, movement_active, now_ns) ==> now_ns
                + config.spec_total_ns() <= u64::MAX,
        ensures
            final(self)@ == old(self)@.step(input, config, movement_active, now_ns),
            output == AssistEngineView::output(final(self)@, input, now_ns),
            final(self)@.phase == AssistPhase::Neutralizing ==> output == (ControllerState {
                left_stick: StickState::spec_neutral(),
                ..input
            }),
            final(self)@.phase != AssistPhase::Neutralizing ==> output == input,
    {
        let jump_pressed = input.buttons.pressed(config.jump_button);
        let assist_allowed = !config.only_assist_while_moving || movement_active;
        let rising_edge = jump_pressed && !self.previous_jump_pressed;

        let finished = match self.sequence {
            Some(sequence) => sequence.is_finished(now_ns),
            None => false,
        };
        if finished {
            self.sequence = None;
        }
        if rising_edge && assist_allowed && self.sequence.is_none() {
            self.sequence = Some(JumpSequence::new(now_ns, config));
            self.jump_count = self.jump_count.saturating_add(1);
        }
        let mut output = input;

        match self.sequence {
            Some(sequence) => {
                self.phase = sequence.phase(now_ns);
                self.last_sequence_age_ms = sequence.age_ms(now_ns);
                if sequence.movement_suppressed(now_ns) {
                    output.left_stick = StickState::neutral();
                }
            },
            None => {
                self.phase = AssistPhase::Idle;
                self.last_sequence_age_ms = 0;
            },
        }
        self.previous_jump_pressed = jump_pressed;
        output
    }
}

/// A step counts a jump exactly when it starts a sequence (the counter
/// stops at its largest value), and with no sequence left the phase is idle
/// and the age reads zero.
pub proof fn lemma_step_counts_jumps(
    before: AssistEngineView,
    input: ControllerState,
    config: AssistConfig,
    movement_active: bool,
    now: u64,
)
    ensures
        ({
            let after = before.step(input, config, movement_active, now);
            &&& after.jump_count == if before.starts_sequence(input, config, movement_active, now) {
                if before.jump_count == u64::MAX {
                    before.jump_count as int
                } else {
                    before.jump_count + 1
                }
            } else {
                before.jump_count as int
            }
            &&& after.sequence.is_none() ==> after.phase == AssistPhase::Idle
                && after.last_sequence_age_ms == 0
            &&& after.previous_jump_pressed == input.buttons.spec_pressed(config.jump_button)
        }),
{
}

/// Whether `now` falls in the window in which a sequence started at `t0`
/// holds the left stick at neutral: after the jump-overlap time, for the
/// movement-release time.
pub open spec fn in_release_window(t0: u64, config: AssistConfig, now: u64) -> bool {
    t0 + config.jump_overlap_ms * NANOS_PER_MILLI <= now && now < t0 + (config.jump_overlap_ms
        + config.movement_release_ms) * NANOS_PER_MILLI
}

/// The output for `input` at `now` of an engine running the sequence that
/// started at `t0`: the left stick at neutral inside the release window, the
/// input unchanged outside it.
pub open spec fn window_output(input: ControllerState, t0: u64, config: AssistConfig, now: u64) -> ControllerState {
    if in_release_window(t0, config, now) {
        ControllerState { left_stick: StickState::spec_neutral(), ..input }
    } else {
        input
    }
}

/// The state of an engine that started a sequence with `config` at `t0`,
/// has seen the jump button held ever since and last stepped at `last`:
/// it still runs that sequence, or the sequence has finished.
pub open spec fn holding_jump(v: AssistEngineView, t0: u64, config: AssistConfig, last: u64) -> bool {
    let s = JumpSequence::spec_new(t0, config);
    &&& v.previous_jump_pressed
    &&& t0 <= last
    &&& t0 + config.spec_total_ns() <= u64::MAX
    &&& (v.sequence == Some(s) || (v.sequence.is_none() && last >= s.finished_at))
}

/// A step that starts a sequence at `t0` leaves the engine holding it, and
/// its output follows the release window.
pub proof fn lemma_jump_start_holds(
    before: AssistEngineView,
    input: ControllerState,
    config: AssistConfig,
    movement_active: bool,
    t0: u64,
)
    requires
        before.starts_sequence(input, config, movement_active, t0),
        t0 + config.spec_total_ns() <= u64::MAX,
    ensures
        holding_jump(before.step(input, config, movement_active, t0), t0, config, t0),
        AssistEngineView::output(before.step(input, config, movement_active, t0), input, t0)
            == window_output(input, t0, config, t0),
{
}

/// Over a chain of steps with the jump button held and the clock not going
/// back, the engine keeps holding the sequence that started at `t0`, and
/// each output has the left stick at neutral exactly inside the release
/// window: later presses start nothing and the stick is never neutralized
/// again.
pub proof fn lemma_held_jump_step(
    v: AssistEngineView,
    t0: u64,
    config: AssistConfig,
    last: u64,
    input: ControllerState,
    step_config: AssistConfig,
    movement_active: bool,
    now: u64,
)
    requires
        holding_jump(v, t0, config, last),
        last <= now,
        input.buttons.spec_pressed(step_config.jump_button),
    ensures
        holding_jump(v.step(input, step_config, movement_active, now), t0, config, now),
        AssistEngineView::output(v.step(input, step_config, movement_active, now), input, now)
            == window_output(input, t0, config, now),
        v.step(input, step_config, movement_active, now).jump_count == v.jump_count,
{
}

/// The engine after the first `n` steps of a run from `start`, step `i`
/// taking `inputs[i]`, `moving[i]` and `times[i]` with `config`.
pub open spec fn run_steps(
    start: AssistEngineView,
    inputs: Seq<ControllerState>,
    config: AssistConfig,
    moving: Seq<bool>,
    times: Seq<u64>,
    n: int,
) -> AssistEngineView
    decreases n,
{
    if n <= 0 {
        start
    } else {
        run_steps(start, inputs, config, moving, times, n - 1).step(
            inputs[n - 1],
            config,
            moving[n - 1],
            times[n - 1],
        )
    }
}

proof fn lemma_run_steps_hold(
    start: AssistEngineView,
    inputs: Seq<ControllerState>,
    config: AssistConfig,
    moving: Seq<bool>,
    times: Seq<u64>,
    k: int,
)
    requires
        inputs.len() == moving.len() == times.len(),
        0 <= k < inputs.len(),
        start.starts_sequence(inputs[0], config, moving[0], times[0]),
        times[0] + config.spec_total_ns() <= u64::MAX,
        forall|i: int| 0 <= i < inputs.len() ==> (#[trigger] inputs[i]).buttons.spec_pressed(
            config.jump_button,
        ),
        forall|i: int, j: int| 0 <= i <= j < times.len() ==> times[i] <= times[j],
    ensures
        holding_jump(run_steps(start, inputs, config, moving, times, k + 1), times[0], config, times[k]),
        AssistEngineView::output(run_steps(start, inputs, config, moving, times, k + 1), inputs[k], times[k])
            == window_output(inputs[k], times[0], config, times[k]),
        run_steps(start, inputs, config, moving, times, k + 1).jump_count == run_steps(
            start,
            inputs,
            config,
            moving,
            times,
            1,
        ).jump_count,
    decreases k,
{
    if k == 0 {
        assert(run_steps(start, inputs, config, moving, times, 0) == start);
        lemma_jump_start_holds(start, inputs[0], config, moving[0], times[0]);
    } else {
        lemma_run_steps_hold(start, inputs, config, moving, times, k - 1);
        assert(inputs[k].buttons.spec_pressed(config.jump_button));
        lemma_held_jump_step(
            run_steps(start, inputs, config, moving, times, k),
            times[0],
            config,
            times[k - 1],
            inputs[k],
            config,
            moving[k],
            times[k],
        );
    }
}

/// A run that starts a sequence at its first step and holds the jump button
/// through every later step, with the clock not going back: each output has
/// the left stick at neutral exactly inside the release window that follows
/// the start, and the input unchanged outside it; the jump count stays what
/// the first step made it.
pub proof fn lemma_held_jump_run(
    start: AssistEngineView,
    inputs: Seq<ControllerState>,
    config: AssistConfig,
    moving: Seq<bool>,
    times: Seq<u64>,
)
    requires
        inputs.len() == moving.len() == times.len(),
        inputs.len() > 0,
        start.starts_sequence(inputs[0], config, moving[0], times[0]),
        times[0] + config.spec_total_ns() <= u64::MAX,
        forall|i: int| 0 <= i < inputs.len() ==> (#[trigger] inputs[i]).buttons.spec_pressed(
            config.jump_button,
        ),
        forall|i: int, j: int| 0 <= i <= j < times.len() ==> times[i] <= times[j],
    ensures
        forall|k: int|
            0 <= k < inputs.len() ==> AssistEngineView::output(
                #[trigger] run_steps(start, inputs, config, moving, times, k + 1),
                inputs[k],
                times[k],
            ) == window_output(inputs[k], times[0], config, times[k]) && run_steps(
                start,
                inputs,
                config,
                moving,
                times,
                k + 1,
            ).jump_count == run_steps(start, inputs, config, moving, times, 1).jump_count,
{
    assert forall|k: int| 0 <= k < inputs.len() implies AssistEngineView::output(
        #[trigger] run_steps(start, inputs, config, moving, times, k + 1),
        inputs[k],
        times[k],
    ) == window_output(inputs[k], times[0], config, times[k]) && run_steps(
        start,
        inputs,
        config,
        moving,
        times,
        k + 1,
    ).jump_count == run_steps(start, inputs, config, moving, times, 1).jump_count by {
        lemma_run_steps_hold(start, inputs, config, moving, times, k);
    }
}

/// A step never changes anything but the left stick: buttons, triggers, the
/// d-pad and the right stick pass through.
pub proof fn lemma_assist_output_keeps_controls(
    before: AssistEngineView,
    input: ControllerState,
    config: AssistConfig,
    movement_active: bool,
    now: u64,
)
    ensures
        ({
            let out = AssistEngineView::output(
                before.step(input, config, movement_active, now),
                input,
                now,
            );
            &&& out.buttons == input.buttons
            &&& out.dpad == input.dpad
            &&& out.l2 == input.l2
            &&& out.r2 == input.r2
            &&& out.right_stick == input.right_stick
            &&& (out.left_stick == input.left_stick || out.left_stick == StickState::spec_neutral())
        }),
{
}

/// Holding the jump button does not start another sequence: only a rising
/// edge counts, so a step whose previous input already had the jump button
/// pressed keeps the jump count.
pub proof fn lemma_assist_rising_edge_only(
    before: AssistEngineView,
    input: ControllerState,
    config: AssistConfig,
    movement_active: bool,
    now: u64,
)
    requires
        before.previous_jump_pressed,
    ensures
        before.step(input, config, movement_active, now).jump_count == before.jump_count,
        !before.starts_sequence(input, config, movement_active, now),
{
}

/// While a sequence is running (not yet finished), no new one starts: the
/// retrigger guard holds off further jumps until it ends.
pub proof fn lemma_assist_no_overlapping_sequences(
    before: AssistEngineView,
    input: ControllerState,
    config: AssistConfig,
    movement_active: bool,
    now: u64,
)
    requires
        before.sequence matches Some(s) && !s.spec_is_finished(now),
    ensures
        before.step(input, config, movement_active, now).sequence == before.sequence,
        before.step(input, config, movement_active, now).jump_count == before.jump_count,
{
}

/// A sequence runs its phases in order: from its start it is in the jump
/// overlap, then neutralizing, then restoring, then idle, each for the
/// configured number of milliseconds.
pub proof fn lemma_sequence_timeline(started_at: u64, config: AssistConfig, now: u64)
    requires
        started_at + config.spec_total_ns() <= u64::MAX,
        now >= started_at,
    ensures
        ({
            let s = JumpSequence::spec_new(started_at, config);
            let t = now - started_at;
            let o = config.jump_overlap_ms * NANOS_PER_MILLI;
            let r = config.movement_release_ms * NANOS_PER_MILLI;
            let g = config.retrigger_guard_ms * NANOS_PER_MILLI;
            &&& (t < o ==> s.spec_phase(now) == AssistPhase::JumpPressed)
            &&& (o <= t < o + r ==> s.spec_phase(now) == AssistPhase::Neutralizing)
            &&& (o + r <= t < o + r + g ==> s.spec_phase(now) == AssistPhase::RestoringMovement)
            &&& (o + r + g <= t ==> s.spec_phase(now) == AssistPhase::Idle)
            &&& s.spec_movement_suppressed(now) == (s.spec_phase(now)
                == AssistPhase::Neutralizing)
        }),
{
    assert(config.jump_overlap_ms * NANOS_PER_MILLI + config.movement_release_ms * NANOS_PER_MILLI
        + config.retrigger_guard_ms * NANOS_PER_MILLI == config.spec_total_ns()) by (nonlinear_arith);
    assert(config.jump_overlap_ms * NANOS_PER_MILLI >= 0) by (nonlinear_arith);
    assert(config.movement_release_ms * NANOS_PER_MILLI >= 0) by (nonlinear_arith);
    assert(config.retrigger_guard_ms * NANOS_PER_MILLI >= 0) by (nonlinear_arith);
}

/// After a step, a sequence is pending exactly when the phase is not idle,
/// provided a sequence lasts at least one nanosecond (with all three
/// durations zero a sequence starts and is idle at once).
pub proof fn lemma_assist_pending_iff_active(
    before: AssistEngineView,
    input: ControllerState,
    config: AssistConfig,
    movement_active: bool,
    now: u64,
)
    requires
        config.spec_total_ns() > 0,
        before.starts_sequence(input, config, movement_active, now) ==> now
            + config.spec_total_ns() <= u64::MAX,
    ensures
        ({
            let after = before.step(input, config, movement_active, now);
            after.sequence.is_some() == (after.phase != AssistPhase::Idle)
        }),
{
    if before.starts_sequence(input, config, movement_active, now) {
        lemma_sequence_timeline(now, config, now);
    }
}


/// Each jump button reads the button of the same name: Circle the circle
/// button, Triangle the triangle button, and so on for all of them.
pub proof fn lemma_pressed_reads_named_button(b: Buttons)
    ensures
        b.spec_pressed(JumpButton::Circle) == b.circle,
        b.spec_pressed(JumpButton::Cross) == b.cross,
        b.spec_pressed(JumpButton::Square) == b.square,
        b.spec_pressed(JumpButton::Triangle) == b.triangle,
        b.spec_pressed(JumpButton::L1) == b.l1,
        b.spec_pressed(JumpButton::R1) == b.r1,
        b.spec_pressed(JumpButton::L2Button) == b.l2_button,
        b.spec_pressed(JumpButton::R2Button) == b.r2_button,
        b.spec_pressed(JumpButton::L3) == b.l3,
        b.spec_pressed(JumpButton::R3) == b.r3,
        b.spec_pressed(JumpButton::Create) == b.create,
        b.spec_pressed(JumpButton::Options) == b.options,
        b.spec_pressed(JumpButton::Touchpad) == b.touchpad,
        b.spec_pressed(JumpButton::Ps) == b.ps,
{
}

/// With the triangle button as the jump button, a fresh triangle press while
/// moving and with no sequence kept starts a sequence, and the jump count
/// goes up by one (saturating).
pub proof fn lemma_triangle_press_starts_sequence(
    before: AssistEngineView,
    input: ControllerState,
    config: AssistConfig,
    now: u64,
)
    requires
        config.jump_button == JumpButton::Triangle,
        input.buttons.triangle,
        !before.previous_jump_pressed,
        before.kept_sequence(now).is_none(),
    ensures
        before.starts_sequence(input, config, true, now),
        before.step(input, config, true, now).jump_count == if before.jump_count == u64::MAX {
            u64::MAX
        } else {
            (before.jump_count + 1) as u64
        },
{
    lemma_step_counts_jumps(before, input, config, true, now);
}


/// Hat-switch values go clockwise from North in steps of one eighth of a
/// turn: 0 North, 1 North-East, 2 East, up to 7 North-West; any other value
/// is neutral.
pub proof fn lemma_hat_values_clockwise(value: int)
    ensures
        hat_direction(0) == DpadDirection::North,
        hat_direction(1) == DpadDirection::NorthEast,
        hat_direction(2) == DpadDirection::East,
        hat_direction(3) == DpadDirection::SouthEast,
        hat_direction(4) == DpadDirection::South,
        hat_direction(5) == DpadDirection::SouthWest,
        hat_direction(6) == DpadDirection::West,
        hat_direction(7) == DpadDirection::NorthWest,
        (value < 0 || value > 7) ==> hat_direction(value) == DpadDirection::Neutral,
{
}

/// The switches (up, down, left, right) give the direction they point to:
/// one switch its side, two neighbouring ones the diagonal between them,
/// none or opposite ones neutral.
pub proof fn lemma_switches_point_their_way()
    ensures
        composed_direction(true, false, false, false) == DpadDirection::North,
        composed_direction(true, false, false, true) == DpadDirection::NorthEast,
        composed_direction(false, false, false, true) == DpadDirection::East,
        composed_direction(false, true, false, true) == DpadDirection::SouthEast,
        composed_direction(false, true, false, false) == DpadDirection::South,
        composed_direction(false, true, true, false) == DpadDirection::SouthWest,
        composed_direction(false, false, true, false) == DpadDirection::West,
        composed_direction(true, false, true, false) == DpadDirection::NorthWest,
        composed_direction(false, false, false, false) == DpadDirection::Neutral,
        composed_direction(true, true, false, false) == DpadDirection::Neutral,
        composed_direction(false, false, true, true) == DpadDirection::Neutral,
{
}

} // verus!

//! Per-device button and trigger calibration: which physical input feeds
//! each logical control, how calibration steps detect a pressed input, and
//! the store of calibration profiles keyed by device identity.
use vstd::prelude::*;
use crate::assist::{Buttons, ControllerState};
use crate::dualsense::InputDeviceInfo;
use crate::text::{append_decimal, append_hex4, decimal_text, hex4_text};

verus! {

/// Trigger travel (out of 255) above which a trigger counts as pressed.
pub const DIGITAL_TRIGGER_ACTIVE_THRESHOLD: u8 = 30;

/// Trigger travel change that marks a trigger as the input being captured.
pub const TRIGGER_CAPTURE_DELTA_THRESHOLD: u8 = 36;

/// A physical button that can feed a logical control.
#[derive(Clone, Copy, Debug, PartialEq, Eq, Structural)]
pub enum ButtonSource {
    Square,
    Circle,
    Cross,
    Triangle,
    L1,
    R1,
    L2Button,
    R2Button,
    Create,
    Options,
    L3,
    R3,
    Ps,
    Touchpad,
}

/// Number of button sources.
pub const BUTTON_SOURCE_COUNT: usize = 14;

impl ButtonSource {
    /// Position in the scan order of button sources.
    pub open spec fn spec_index(self) -> int {
        match self {
            ButtonSource::Square => 0,
            ButtonSource::Circle => 1,
            ButtonSource::Cross => 2,
            ButtonSource::Triangle => 3,
            ButtonSource::L1 => 4,
            ButtonSource::R1 => 5,
            ButtonSource::L2Button => 6,
            ButtonSource::R2Button => 7,
            ButtonSource::Create => 8,
            ButtonSource::Options => 9,
            ButtonSource::L3 => 10,
            ButtonSource::R3 => 11,
            ButtonSource::Ps => 12,
            ButtonSource::Touchpad => 13,
        }
    }

    pub open spec fn spec_at(i: int) -> ButtonSource {
        if i == 0 {
            ButtonSource::Square
        } else if i == 1 {
            ButtonSource::Circle
        } else if i == 2 {
            ButtonSource::Cross
        } else if i == 3 {
            ButtonSource::Triangle
        } else if i == 4 {
            ButtonSource::L1
        } else if i == 5 {
            ButtonSource::R1
        } else if i == 6 {
            ButtonSource::L2Button
        } else if i == 7 {
            ButtonSource::R2Button
        } else if i == 8 {
            ButtonSource::Create
        } else if i == 9 {
            ButtonSource::Options
        } else if i == 10 {
            ButtonSource::L3
        } else if i == 11 {
            ButtonSource::R3
        } else if i == 12 {
            ButtonSource::Ps
        } else {
            ButtonSource::Touchpad
        }
    }

    /// The source at position `i` of the scan order.
    pub fn at(i: usize) -> (r: ButtonSource)
        requires
            i < BUTTON_SOURCE_COUNT,
        ensures
            r == ButtonSource::spec_at(i as int),
            r.spec_index() == i,
    {
        if i == 0 {
            ButtonSource::Square
        } else if i == 1 {
            ButtonSource::Circle
        } else if i == 2 {
            ButtonSource::Cross
        } else if i == 3 {
            ButtonSource::Triangle
        } else if i == 4 {
            ButtonSource::L1
        } else if i == 5 {
            ButtonSource::R1
        } else if i == 6 {
            ButtonSource::L2Button
        } else if i == 7 {
            ButtonSource::R2Button
        } else if i == 8 {
            ButtonSource::Create
        } else if i == 9 {
            ButtonSource::Options
        } else if i == 10 {
            ButtonSource::L3
        } else if i == 11 {
            ButtonSource::R3
        } else if i == 12 {
            ButtonSource::Ps
        } else {
            ButtonSource::Touchpad
        }
    }
}

/// A logical button whose source can be calibrated.
#[derive(Clone, Copy, Debug, PartialEq, Eq, Structural)]
pub enum ButtonTarget {
    Square,
    Circle,
    Cross,
    Triangle,
    L1,
    R1,
    Create,
    Options,
    L3,
    R3,
}

#[derive(Clone, Copy, Debug, PartialEq, Eq, Structural)]
pub enum TriggerSide {
    Left,
    Right,
}

/// What feeds a logical trigger.
#[derive(Clone, Copy, Debug, PartialEq, Eq, Structural)]
pub enum TriggerSource {
    LeftTrigger,
    RightTrigger,
    Button(ButtonSource),
    Unassigned,
}

/// One step of the calibration walk-through.
#[derive(Clone, Copy, Debug, PartialEq, Eq, Structural)]
pub enum CalibrationStep {
    Button(ButtonTarget),
    Trigger(TriggerSide),
}

/// Number of calibration steps.
pub const CALIBRATION_STEP_COUNT: usize = 12;

impl CalibrationStep {
    /// The step at position `i` of the walk-through, if any.
    pub open spec fn spec_at(i: int) -> Option<CalibrationStep> {
        if i == 0 {
            Some(CalibrationStep::Button(ButtonTarget::Cross))
        } else if i == 1 {
            Some(CalibrationStep::Button(ButtonTarget::Circle))
        } else if i == 2 {
            Some(CalibrationStep::Button(ButtonTarget::Square))
        } else if i == 3 {
            Some(CalibrationStep::Button(ButtonTarget::Triangle))
        } else if i == 4 {
            Some(CalibrationStep::Button(ButtonTarget::L1))
        } else if i == 5 {
            Some(CalibrationStep::Button(ButtonTarget::R1))
        } else if i == 6 {
            Some(CalibrationStep::Trigger(TriggerSide::Left))
        } else if i == 7 {
            Some(CalibrationStep::Trigger(TriggerSide::Right))
        } else if i == 8 {
            Some(CalibrationStep::Button(ButtonTarget::Create))
        } else if i == 9 {
            Some(CalibrationStep::Button(ButtonTarget::Options))
        } else if i == 10 {
            Some(CalibrationStep::Button(ButtonTarget::L3))
        } else if i == 11 {
            Some(CalibrationStep::Button(ButtonTarget::R3))
        } else {
            None
        }
    }

    /// The step at position `i` of the walk-through, if any.
    pub fn at(i: usize) -> (r: Option<CalibrationStep>)
        ensures
            r == CalibrationStep::spec_at(i as int),
    {
        if i == 0 {
            Some(CalibrationStep::Button(ButtonTarget::Cross))
        } else if i == 1 {
            Some(CalibrationStep::Button(ButtonTarget::Circle))
        } else if i == 2 {
            Some(CalibrationStep::Button(ButtonTarget::Square))
        } else if i == 3 {
            Some(CalibrationStep::Button(ButtonTarget::Triangle))
        } else if i == 4 {
            Some(CalibrationStep::Button(ButtonTarget::L1))
        } else if i == 5 {
            Some(CalibrationStep::Button(ButtonTarget::R1))
        } else if i == 6 {
            Some(CalibrationStep::Trigger(TriggerSide::Left))
        } else if i == 7 {
            Some(CalibrationStep::Trigger(TriggerSide::Right))
        } else if i == 8 {
            Some(CalibrationStep::Button(ButtonTarget::Create))
        } else if i == 9 {
            Some(CalibrationStep::Button(ButtonTarget::Options))
        } else if i == 10 {
            Some(CalibrationStep::Button(ButtonTarget::L3))
        } else if i == 11 {
            Some(CalibrationStep::Button(ButtonTarget::R3))
        } else {
            None
        }
    }
}

/// The source of every calibrated logical button.
#[derive(Clone, Copy, Debug, PartialEq, Eq, Structural)]
pub struct ButtonCalibrationMap {
    pub square: ButtonSource,
    pub circle: ButtonSource,
    pub cross: ButtonSource,
    pub triangle: ButtonSource,
    pub l1: ButtonSource,
    pub r1: ButtonSource,
    pub create: ButtonSource,
    pub options: ButtonSource,
    pub l3: ButtonSource,
    pub r3: ButtonSource,
}

impl ButtonCalibrationMap {
    /// Every logical button fed by the physical button of the same name.
    pub open spec fn spec_identity() -> ButtonCalibrationMap {
        ButtonCalibrationMap {
            square: ButtonSource::Square,
            circle: ButtonSource::Circle,
            cross: ButtonSource::Cross,
            triangle: ButtonSource::Triangle,
            l1: ButtonSource::L1,
            r1: ButtonSource::R1,
            create: ButtonSource::Create,
            options: ButtonSource::Options,
            l3: ButtonSource::L3,
            r3: ButtonSource::R3,
        }
    }

    /// The source of a logical button.
    pub open spec fn spec_source(self, target: ButtonTarget) -> ButtonSource {
        match target {
            ButtonTarget::Square => self.square,
            ButtonTarget::Circle => self.circle,
            ButtonTarget::Cross => self.cross,
            ButtonTarget::Triangle => self.triangle,
            ButtonTarget::L1 => self.l1,
            ButtonTarget::R1 => self.r1,
            ButtonTarget::Create => self.create,
            ButtonTarget::Options => self.options,
            ButtonTarget::L3 => self.l3,
            ButtonTarget::R3 => self.r3,
        }
    }

    /// Feeds `target` from `source`; every other target keeps its source.
    pub fn set_source(&mut self, target: ButtonTarget, source: ButtonSource)
        ensures
            forall|t: ButtonTarget| #[trigger] final(self).spec_source(t) == if t == target {
                source
            } else {
                old(self).spec_source(t)
            },
    {
        match target {
            ButtonTarget::Square => self.square = source,
            ButtonTarget::Circle => self.circle = source,
            ButtonTarget::Cross => self.cross = source,
            ButtonTarget::Triangle => self.triangle = source,
            ButtonTarget::L1 => self.l1 = source,
            ButtonTarget::R1 => self.r1 = source,
            ButtonTarget::Create => self.create = source,
            ButtonTarget::Options => self.options = source,
            ButtonTarget::L3 => self.l3 = source,
            ButtonTarget::R3 => self.r3 = source,
        }
    }
}

impl Default for ButtonCalibrationMap {
    fn default() -> (r: Self)
        ensures
            r == ButtonCalibrationMap::spec_identity(),
    {
        ButtonCalibrationMap {
            square: ButtonSource::Square,
            circle: ButtonSource::Circle,
            cross: ButtonSource::Cross,
            triangle: ButtonSource::Triangle,
            l1: ButtonSource::L1,
            r1: ButtonSource::R1,
            create: ButtonSource::Create,
            options: ButtonSource::Options,
            l3: ButtonSource::L3,
            r3: ButtonSource::R3,
        }
    }
}

/// The calibration of one device.
#[derive(Clone, Debug, PartialEq, Eq)]
pub struct DeviceCalibrationProfile {
    pub device_key: String,
    pub device_name: String,
    pub buttons: ButtonCalibrationMap,
    pub left_trigger: TriggerSource,
    pub right_trigger: TriggerSource,
}

/// The source a stored profile's left trigger gets when none is recorded.
pub fn default_left_trigger_source() -> (r: TriggerSource)
    ensures
        r == TriggerSource::LeftTrigger,
{
    TriggerSource::LeftTrigger
}

/// The source a stored profile's right trigger gets when none is recorded.
pub fn default_right_trigger_source() -> (r: TriggerSource)
    ensures
        r == TriggerSource::RightTrigger,
{
    TriggerSource::RightTrigger
}

/// The identity key of a device: its source kind, vendor and product ids in
/// four hexadecimal digits, interface number, serial number (`-` when
/// absent), manufacturer and product, separated by colons.
pub open spec fn spec_device_key(info: &InputDeviceInfo) -> Seq<char> {
    info.source_kind.spec_name() + ":"@ + hex4_text(info.vendor_id) + ":"@ + hex4_text(
        info.product_id,
    ) + ":"@ + decimal_text(info.interface_number as int) + ":"@ + match info.serial_number {
        Some(s) => s@,
        None => "-"@,
    } + ":"@ + info.manufacturer@ + ":"@ + info.product@
}

/// The identity key of a device.
pub fn device_calibration_key(info: &InputDeviceInfo) -> (r: String)
    ensures
        r@ == spec_device_key(info),
{
    let mut key = String::from_str(info.source_kind.name());
    key.append(":");
    append_hex4(&mut key, info.vendor_id);
    key.append(":");
    append_hex4(&mut key, info.product_id);
    key.append(":");
    append_decimal(&mut key, info.interface_number);
    key.append(":");
    match &info.serial_number {
        Some(s) => key.append(s.as_str()),
        None => key.append("-"),
    }
    key.append(":");
    key.append(info.manufacturer.as_str());
    key.append(":");
    key.append(info.product.as_str());
    key
}

/// Whether a device can be calibrated by hand.
pub fn supports_manual_calibration(info: &InputDeviceInfo) -> (r: bool)
    ensures
        r == info.spec_is_supported(),
{
    info.is_supported()
}

impl DeviceCalibrationProfile {
    /// A fresh profile for a device: every control fed by itself.
    pub fn new(info: &InputDeviceInfo) -> (r: DeviceCalibrationProfile)
        ensures
            r.device_key@ == spec_device_key(info),
            r.device_name@ == info.spec_product_label(),
            r.buttons == ButtonCalibrationMap::spec_identity(),
            r.left_trigger == TriggerSource::LeftTrigger,
            r.right_trigger == TriggerSource::RightTrigger,
    {
        DeviceCalibrationProfile {
            device_key: device_calibration_key(info),
            device_name: info.product_label(),
            buttons: ButtonCalibrationMap::default(),
            left_trigger: TriggerSource::LeftTrigger,
            right_trigger: TriggerSource::RightTrigger,
        }
    }

    /// A copy of the profile.
    pub fn duplicate(&self) -> (r: DeviceCalibrationProfile)
        ensures
            r == *self,
    {
        DeviceCalibrationProfile {
            device_key: self.device_key.clone(),
            device_name: self.device_name.clone(),
            buttons: self.buttons,
            left_trigger: self.left_trigger,
            right_trigger: self.right_trigger,
        }
    }

    pub fn set_button_source(&mut self, target: ButtonTarget, source: ButtonSource)
        ensures
            forall|t: ButtonTarget| #[trigger] final(self).buttons.spec_source(t) == if t
                == target {
                source
            } else {
                old(self).buttons.spec_source(t)
            },
            final(self).device_key == old(self).device_key,
            final(self).device_name == old(self).device_name,
            final(self).left_trigger == old(self).left_trigger,
            final(self).right_trigger == old(self).right_trigger,
    {
        self.buttons.set_source(target, source);
    }

    pub fn set_trigger_source(&mut self, side: TriggerSide, source: TriggerSource)
        ensures
            final(self).left_trigger == if side == TriggerSide::Left {
                source
            } else {
                old(self).left_trigger
            },
            final(self).right_trigger == if side == TriggerSide::Right {
                source
            } else {
                old(self).right_trigger
            },
            final(self).device_key == old(self).device_key,
            final(self).device_name == old(self).device_name,
            final(self).buttons == old(self).buttons,
    {
        match side {
            TriggerSide::Left => self.left_trigger = source,
            TriggerSide::Right => self.right_trigger = source,
        }
    }
}

/// The position of the first profile at or after `i` whose key is `key`.
pub open spec fn find_profile_from(
    devices: Seq<DeviceCalibrationProfile>,
    key: Seq<char>,
    i: int,
) -> Option<int>
    decreases devices.len() - i,
{
    if i < 0 || i >= devices.len() {
        None
    } else if devices[i].device_key@ == key {
        Some(i)
    } else {
        find_profile_from(devices, key, i + 1)
    }
}

/// The position of the first profile whose key is `key`.
pub open spec fn find_profile(devices: Seq<DeviceCalibrationProfile>, key: Seq<char>) -> Option<
    int,
> {
    find_profile_from(devices, key, 0)
}

/// The first profile whose key is `key`.
pub open spec fn lookup_profile(devices: Seq<DeviceCalibrationProfile>, key: Seq<char>) -> Option<
    DeviceCalibrationProfile,
> {
    match find_profile(devices, key) {
        Some(i) => Some(devices[i]),
        None => None,
    }
}

/// The profiles after storing `profile`: it replaces the first profile with
/// its key, or is appended when there is none.
pub open spec fn upserted(
    devices: Seq<DeviceCalibrationProfile>,
    profile: DeviceCalibrationProfile,
) -> Seq<DeviceCalibrationProfile> {
    match find_profile(devices, profile.device_key@) {
        Some(i) => devices.update(i, profile),
        None => devices.push(profile),
    }
}

/// The profiles whose key is not `key`, in their order.
pub open spec fn without_key(devices: Seq<DeviceCalibrationProfile>, key: Seq<char>) -> Seq<
    DeviceCalibrationProfile,
> {
    devices.filter(|p: DeviceCalibrationProfile| p.device_key@ != key)
}

proof fn lemma_find_profile_from_bounds(
    devices: Seq<DeviceCalibrationProfile>,
    key: Seq<char>,
    i: int,
)
    requires
        0 <= i,
    ensures
        match find_profile_from(devices, key, i) {
            Some(j) => i <= j < devices.len() && devices[j].device_key@ == key && forall|k: int|
                i <= k < j ==> devices[k].device_key@ != key,
            None => forall|k: int| i <= k < devices.len() ==> devices[k].device_key@ != key,
        },
    decreases devices.len() - i,
{
    if 0 <= i < devices.len() && devices[i].device_key@ != key {
        lemma_find_profile_from_bounds(devices, key, i + 1);
    }
}

/// All stored calibration profiles.
#[derive(Clone, Debug, PartialEq, Eq)]
pub struct CalibrationStore {
    pub devices: Vec<DeviceCalibrationProfile>,
}

impl Default for CalibrationStore {
    fn default() -> (r: Self)
        ensures
            r.devices@ == Seq::<DeviceCalibrationProfile>::empty(),
    {
        CalibrationStore { devices: Vec::new() }
    }
}

impl CalibrationStore {
    fn find_index(&self, key: &str) -> (r: Option<usize>)
        ensures
            match r {
                Some(i) => find_profile(self.devices@, key@) == Some(i as int) && i
                    < self.devices@.len(),
                None => find_profile(self.devices@, key@).is_none(),
            },
    {
        let mut i: usize = 0;
        while i < self.devices.len()
            invariant
                i <= self.devices@.len(),
                find_profile(self.devices@, key@) == find_profile_from(
                    self.devices@,
                    key@,
                    i as int,
                ),
            decreases self.devices@.len() - i,
        {
            if self.devices[i].device_key == String::from_str(key) {
                return Some(i);
            }
            i = i + 1;
        }
        None
    }

    /// The stored profile of a device, if any.
    pub fn profile_for(&self, info: &InputDeviceInfo) -> (r: Option<&DeviceCalibrationProfile>)
        ensures
            match r {
                Some(p) => lookup_profile(self.devices@, spec_device_key(info)) == Some(*p),
                None => lookup_profile(self.devices@, spec_device_key(info)).is_none(),
            },
    {
        let key = device_calibration_key(info);
        match self.find_index(key.as_str()) {
            Some(i) => Some(&self.devices[i]),
            None => None,
        }
    }

    /// Stores `profile`, replacing the profile stored under its key.
    pub fn upsert(&mut self, profile: DeviceCalibrationProfile)
        ensures
            final(self).devices@ == upserted(old(self).devices@, profile),
    {
        match self.find_index(profile.device_key.as_str()) {
            Some(i) => {
                self.devices.set(i, profile);
            },
            None => {
                self.devices.push(profile);
            },
        }
    }

    /// Forgets the calibration of a device.
    pub fn reset_for(&mut self, info: &InputDeviceInfo)
        ensures
            final(self).devices@ == without_key(old(self).devices@, spec_device_key(info)),
    {
        let key = device_calibration_key(info);
        let mut kept: Vec<DeviceCalibrationProfile> = Vec::new();
        let mut i: usize = 0;
        while i < self.devices.len()
            invariant
                key@ == spec_device_key(info),
                i <= self.devices@.len(),
                kept@ == without_key(self.devices@.take(i as int), key@),
            decreases self.devices@.len() - i,
        {
            let ghost before = kept@;
            if !(self.devices[i].device_key == key) {
                kept.push(self.devices[i].duplicate());
            }
            proof {
                reveal_with_fuel(Seq::<DeviceCalibrationProfile>::filter, 1);
                assert(self.devices@.take(i + 1).drop_last() =~= self.devices@.take(i as int));
            }
            i = i + 1;
        }
        assert(self.devices@.take(i as int) =~= self.devices@);
        self.devices = kept;
    }

    /// The stored profile of a device, or a fresh one.
    pub fn profile_or_default(&self, info: &InputDeviceInfo) -> (r: DeviceCalibrationProfile)
        ensures
            match lookup_profile(self.devices@, spec_device_key(info)) {
                Some(p) => r == p,
                None => r.device_key@ == spec_device_key(info) && r.device_name@
                    == info.spec_product_label() && r.buttons == ButtonCalibrationMap::spec_identity()
                    && r.left_trigger == TriggerSource::LeftTrigger && r.right_trigger
                    == TriggerSource::RightTrigger,
            },
    {
        match self.profile_for(info) {
            Some(p) => p.duplicate(),
            None => DeviceCalibrationProfile::new(info),
        }
    }
}

/// After storing a profile, looking up its key finds it.
pub proof fn lemma_upsert_then_lookup(
    devices: Seq<DeviceCalibrationProfile>,
    profile: DeviceCalibrationProfile,
)
    ensures
        lookup_profile(upserted(devices, profile), profile.device_key@) == Some(profile),
{
    let key = profile.device_key@;
    lemma_find_profile_from_bounds(devices, key, 0);
    let after = upserted(devices, profile);
    lemma_find_profile_from_bounds(after, key, 0);
    match find_profile(devices, key) {
        Some(i) => {
            assert(after[i].device_key@ == key);
            match find_profile(after, key) {
                Some(j) => {
                    if j < i {
                        assert(after[j] == devices[j]);
                    }
                },
                None => {
                    assert(after[i].device_key@ == key);
                },
            }
        },
        None => {
            let n = devices.len() as int;
            assert(after[n] == profile);
            match find_profile(after, key) {
                Some(j) => {
                    if j < n {
                        assert(after[j] == devices[j]);
                    }
                },
                None => {
                    assert(after[n].device_key@ == key);
                },
            }
        },
    }
}

/// Storing a profile does not change what other keys look up.
pub proof fn lemma_upsert_keeps_other_keys(
    devices: Seq<DeviceCalibrationProfile>,
    profile: DeviceCalibrationProfile,
    key: Seq<char>,
)
    requires
        key != profile.device_key@,
    ensures
        lookup_profile(upserted(devices, profile), key) == lookup_profile(devices, key),
{
    let after = upserted(devices, profile);
    lemma_find_profile_from_bounds(devices, key, 0);
    lemma_find_profile_from_bounds(after, key, 0);
    lemma_find_profile_from_bounds(devices, profile.device_key@, 0);
    match find_profile(devices, key) {
        Some(i) => {
            assert(after[i] == devices[i]);
            match find_profile(after, key) {
                Some(j) => {
                    assert(after[j] == devices[j]);
                    if j < i {
                    } else if j > i {
                    }
                },
                None => {},
            }
        },
        None => {
            match find_profile(after, key) {
                Some(j) => {
                    if j < devices.len() {
                        assert(after[j] == devices[j]);
                    }
                },
                None => {},
            }
        },
    }
}

/// No two profiles share a key.
pub open spec fn keys_distinct(devices: Seq<DeviceCalibrationProfile>) -> bool {
    forall|i: int, j: int|
        0 <= i < j < devices.len() ==> (#[trigger] devices[i]).device_key@ != (
        #[trigger] devices[j]).device_key@
}

/// Storing a profile in a store whose keys are distinct keeps them distinct;
/// the profile is then the only one with its key; the store grows by one,
/// at its end, only for a new key; every profile with another key stays
/// where it was; and storing the same profile again changes nothing.
pub proof fn lemma_upsert_shape(devices: Seq<DeviceCalibrationProfile>, profile: DeviceCalibrationProfile)
    requires
        keys_distinct(devices),
    ensures
        ({
            let after = upserted(devices, profile);
            let key = profile.device_key@;
            &&& keys_distinct(after)
            &&& forall|i: int|
                0 <= i < after.len() && (#[trigger] after[i]).device_key@ == key ==> after[i]
                    == profile
            &&& after.len() == devices.len() + (if find_profile(devices, key).is_some() {
                0int
            } else {
                1int
            })
            &&& forall|i: int|
                0 <= i < devices.len() && (#[trigger] devices[i]).device_key@ != key ==> after[i]
                    == devices[i]
            &&& find_profile(devices, key).is_none() ==> after.last() == profile
            &&& upserted(after, profile) == after
        }),
{
    let key = profile.device_key@;
    let after = upserted(devices, profile);
    lemma_find_profile_from_bounds(devices, key, 0);
    match find_profile(devices, key) {
        Some(i) => {
            assert forall|a: int, b: int|
                0 <= a < b < after.len() implies (#[trigger] after[a]).device_key@ != (
                #[trigger] after[b]).device_key@ by {
                assert(devices[a].device_key@ != devices[b].device_key@);
            }
            assert forall|k: int|
                0 <= k < after.len() && (#[trigger] after[k]).device_key@ == key implies after[k]
                    == profile by {
                if k != i {
                    if k < i {
                        assert(devices[k].device_key@ != devices[i].device_key@);
                    } else {
                        assert(devices[i].device_key@ != devices[k].device_key@);
                    }
                }
            }
        },
        None => {
            assert forall|a: int, b: int|
                0 <= a < b < after.len() implies (#[trigger] after[a]).device_key@ != (
                #[trigger] after[b]).device_key@ by {
                if b < devices.len() {
                    assert(devices[a].device_key@ != devices[b].device_key@);
                } else {
                    assert(after[b] == profile);
                    assert(after[a] == devices[a]);
                }
            }
            assert forall|k: int|
                0 <= k < after.len() && (#[trigger] after[k]).device_key@ == key implies after[k]
                    == profile by {
                if k < devices.len() {
                    assert(after[k] == devices[k]);
                }
            }
        },
    }
    lemma_find_profile_from_bounds(after, key, 0);
    match find_profile(after, key) {
        Some(j) => {
            assert(after[j] == profile);
            assert(after.update(j, profile) =~= after);
        },
        None => {
            lemma_upsert_then_lookup(devices, profile);
        },
    }
}

/// After forgetting a device's calibration, looking up its key finds nothing.
pub proof fn lemma_reset_then_lookup(devices: Seq<DeviceCalibrationProfile>, key: Seq<char>)
    ensures
        lookup_profile(without_key(devices, key), key).is_none(),
{
    let after = without_key(devices, key);
    lemma_find_profile_from_bounds(after, key, 0);
    if find_profile(after, key).is_some() {
        let j = find_profile(after, key).unwrap();
        devices.lemma_filter_pred(|p: DeviceCalibrationProfile| p.device_key@ != key, j);
    }
}

/// Whether `source` is pressed in `buttons`.
pub open spec fn spec_button_source_value(buttons: Buttons, source: ButtonSource) -> bool {
    match source {
        ButtonSource::Square => buttons.square,
        ButtonSource::Circle => buttons.circle,
        ButtonSource::Cross => buttons.cross,
        ButtonSource::Triangle => buttons.triangle,
        ButtonSource::L1 => buttons.l1,
        ButtonSource::R1 => buttons.r1,
        ButtonSource::L2Button => buttons.l2_button,
        ButtonSource::R2Button => buttons.r2_button,
        ButtonSource::Create => buttons.create,
        ButtonSource::Options => buttons.options,
        ButtonSource::L3 => buttons.l3,
        ButtonSource::R3 => buttons.r3,
        ButtonSource::Ps => buttons.ps,
        ButtonSource::Touchpad => buttons.touchpad,
    }
}

/// The trigger travel that `source` gives: a trigger's own travel, full or
/// none for a button, none when unassigned.
pub open spec fn spec_trigger_source_value(state: ControllerState, source: TriggerSource) -> u8 {
    match source {
        TriggerSource::LeftTrigger => state.l2,
        TriggerSource::RightTrigger => state.r2,
        TriggerSource::Button(button) => if spec_button_source_value(state.buttons, button) {
            255
        } else {
            0
        },
        TriggerSource::Unassigned => 0,
    }
}

pub fn button_source_value(buttons: Buttons, source: ButtonSource) -> (r: bool)
    ensures
        r == spec_button_source_value(buttons, source),
{
    match source {
        ButtonSource::Square => buttons.square,
        ButtonSource::Circle => buttons.circle,
        ButtonSource::Cross => buttons.cross,
        ButtonSource::Triangle => buttons.triangle,
        ButtonSource::L1 => buttons.l1,
        ButtonSource::R1 => buttons.r1,
        ButtonSource::L2Button => buttons.l2_button,
        ButtonSource::R2Button => buttons.r2_button,
        ButtonSource::Create => buttons.create,
        ButtonSource::Options => buttons.options,
        ButtonSource::L3 => buttons.l3,
        ButtonSource::R3 => buttons.r3,
        ButtonSource::Ps => buttons.ps,
        ButtonSource::Touchpad => buttons.touchpad,
    }
}

pub fn trigger_source_value(state: ControllerState, source: TriggerSource) -> (r: u8)
    ensures
        r == spec_trigger_source_value(state, source),
{
    match source {
        TriggerSource::LeftTrigger => state.l2,
        TriggerSource::RightTrigger => state.r2,
        TriggerSource::Button(button) => {
            if button_source_value(state.buttons, button) {
                255
            } else {
                0
            }
        },
        TriggerSource::Unassigned => 0,
    }
}

/// The buttons with a calibration map applied: each calibrated button reads
/// its source, the digital trigger buttons follow the given trigger travel,
/// and the other buttons are unchanged.
pub open spec fn spec_calibrated_buttons(raw: Buttons, map: ButtonCalibrationMap, l2: u8, r2: u8) -> Buttons {
    Buttons {
        square: spec_button_source_value(raw, map.square),
        circle: spec_button_source_value(raw, map.circle),
        cross: spec_button_source_value(raw, map.cross),
        triangle: spec_button_source_value(raw, map.triangle),
        l1: spec_button_source_value(raw, map.l1),
        r1: spec_button_source_value(raw, map.r1),
        create: spec_button_source_value(raw, map.create),
        options: spec_button_source_value(raw, map.options),
        l3: spec_button_source_value(raw, map.l3),
        r3: spec_button_source_value(raw, map.r3),
        l2_button: l2 >= DIGITAL_TRIGGER_ACTIVE_THRESHOLD,
        r2_button: r2 >= DIGITAL_TRIGGER_ACTIVE_THRESHOLD,
        ..raw
    }
}

/// The state with a profile applied: each calibrated button and trigger reads
/// its source, and the digital trigger buttons follow the calibrated
/// triggers.
pub open spec fn spec_calibrated(raw: ControllerState, profile: DeviceCalibrationProfile) -> ControllerState {
    let l2 = spec_trigger_source_value(raw, profile.left_trigger);
    let r2 = spec_trigger_source_value(raw, profile.right_trigger);
    ControllerState {
        l2,
        r2,
        buttons: spec_calibrated_buttons(raw.buttons, profile.buttons, l2, r2),
        ..raw
    }
}

fn calibrated_buttons(raw: Buttons, map: ButtonCalibrationMap, l2: u8, r2: u8) -> (r: Buttons)
    ensures
        r == spec_calibrated_buttons(raw, map, l2, r2),
{
    Buttons {
        square: button_source_value(raw, map.square),
        circle: button_source_value(raw, map.circle),
        cross: button_source_value(raw, map.cross),
        triangle: button_source_value(raw, map.triangle),
        l1: button_source_value(raw, map.l1),
        r1: button_source_value(raw, map.r1),
        create: button_source_value(raw, map.create),
        options: button_source_value(raw, map.options),
        l3: button_source_value(raw, map.l3),
        r3: button_source_value(raw, map.r3),
        l2_button: l2 >= DIGITAL_TRIGGER_ACTIVE_THRESHOLD,
        r2_button: r2 >= DIGITAL_TRIGGER_ACTIVE_THRESHOLD,
        ..raw
    }
}

/// The state with the device's stored calibration applied, or unchanged when
/// the device has none.
pub fn apply_device_calibration(
    info: &InputDeviceInfo,
    raw_state: ControllerState,
    store: &CalibrationStore,
) -> (r: ControllerState)
    ensures
        r == match lookup_profile(store.devices@, spec_device_key(info)) {
            Some(p) => spec_calibrated(raw_state, p),
            None => raw_state,
        },
{
    let profile = match store.profile_for(info) {
        Some(p) => p,
        None => return raw_state,
    };
    let l2 = trigger_source_value(raw_state, profile.left_trigger);
    let r2 = trigger_source_value(raw_state, profile.right_trigger);
    ControllerState {
        l2,
        r2,
        buttons: calibrated_buttons(raw_state.buttons, profile.buttons, l2, r2),
        ..raw_state
    }
}

/// Whether nothing is held: no button source pressed and both triggers below
/// the digital threshold.
pub open spec fn spec_is_capture_idle(state: ControllerState) -> bool {
    (forall|s: ButtonSource| !#[trigger] spec_button_source_value(state.buttons, s)) && state.l2
        < DIGITAL_TRIGGER_ACTIVE_THRESHOLD && state.r2 < DIGITAL_TRIGGER_ACTIVE_THRESHOLD
}

/// Whether nothing is held.
pub fn is_capture_idle(state: ControllerState) -> (r: bool)
    ensures
        r == spec_is_capture_idle(state),
{
    let mut i: usize = 0;
    while i < BUTTON_SOURCE_COUNT
        invariant
            i <= BUTTON_SOURCE_COUNT,
            forall|s: ButtonSource|
                s.spec_index() < i ==> !#[trigger] spec_button_source_value(state.buttons, s),
        decreases BUTTON_SOURCE_COUNT - i,
    {
        if button_source_value(state.buttons, ButtonSource::at(i)) {
            return false;
        }
        i = i + 1;
    }
    assert forall|s: ButtonSource| !#[trigger] spec_button_source_value(state.buttons, s) by {
        assert(s.spec_index() < BUTTON_SOURCE_COUNT);
    }
    state.l2 < DIGITAL_TRIGGER_ACTIVE_THRESHOLD && state.r2 < DIGITAL_TRIGGER_ACTIVE_THRESHOLD
}

/// Whether `source` went from released in `baseline` to pressed in `current`.
pub open spec fn newly_pressed(baseline: ControllerState, current: ControllerState, source: ButtonSource) -> bool {
    !spec_button_source_value(baseline.buttons, source) && spec_button_source_value(
        current.buttons,
        source,
    )
}

/// The first newly pressed button source at position `i` or later.
pub open spec fn first_newly_pressed_from(
    baseline: ControllerState,
    current: ControllerState,
    i: int,
) -> Option<ButtonSource>
    decreases BUTTON_SOURCE_COUNT - i,
{
    if i < 0 || i >= BUTTON_SOURCE_COUNT {
        None
    } else if newly_pressed(baseline, current, ButtonSource::spec_at(i)) {
        Some(ButtonSource::spec_at(i))
    } else {
        first_newly_pressed_from(baseline, current, i + 1)
    }
}

/// The first button source, in scan order, that is pressed in `current` but
/// not in `baseline`.
pub fn detect_button_source(baseline: ControllerState, current: ControllerState) -> (r: Option<
    ButtonSource,
>)
    ensures
        r == first_newly_pressed_from(baseline, current, 0),
{
    let mut i: usize = 0;
    while i < BUTTON_SOURCE_COUNT
        invariant
            i <= BUTTON_SOURCE_COUNT,
            first_newly_pressed_from(baseline, current, 0) == first_newly_pressed_from(
                baseline,
                current,
                i as int,
            ),
        decreases BUTTON_SOURCE_COUNT - i,
    {
        let source = ButtonSource::at(i);
        if !button_source_value(baseline.buttons, source) && button_source_value(
            current.buttons,
            source,
        ) {
            return Some(source);
        }
        i = i + 1;
    }
    None
}

/// Absolute difference of two bytes.
pub open spec fn byte_distance(a: u8, b: u8) -> u8 {
    if a >= b {
        (a - b) as u8
    } else {
        (b - a) as u8
    }
}

/// The trigger source a calibration step captures: a trigger that moved by
/// the capture threshold (the one that moved more, left on a tie), else the
/// first newly pressed button.
pub open spec fn spec_detect_trigger_source(baseline: ControllerState, current: ControllerState) -> Option<
    TriggerSource,
> {
    let left_delta = byte_distance(current.l2, baseline.l2);
    let right_delta = byte_distance(current.r2, baseline.r2);
    if left_delta >= TRIGGER_CAPTURE_DELTA_THRESHOLD || right_delta
        >= TRIGGER_CAPTURE_DELTA_THRESHOLD {
        if left_delta >= right_delta {
            Some(TriggerSource::LeftTrigger)
        } else {
            Some(TriggerSource::RightTrigger)
        }
    } else {
        match first_newly_pressed_from(baseline, current, 0) {
            Some(b) => Some(TriggerSource::Button(b)),
            None => None,
        }
    }
}

/// The trigger source a calibration step captures.
pub fn detect_trigger_source(baseline: ControllerState, current: ControllerState) -> (r: Option<
    TriggerSource,
>)
    ensures
        r == spec_detect_trigger_source(baseline, current),
{
    let left_delta = if current.l2 >= baseline.l2 {
        current.l2 - baseline.l2
    } else {
        baseline.l2 - current.l2
    };
    let right_delta = if current.r2 >= baseline.r2 {
        current.r2 - baseline.r2
    } else {
        baseline.r2 - current.r2
    };
    if left_delta >= TRIGGER_CAPTURE_DELTA_THRESHOLD || right_delta
        >= TRIGGER_CAPTURE_DELTA_THRESHOLD {
        if left_delta >= right_delta {
            return Some(TriggerSource::LeftTrigger);
        }
        return Some(TriggerSource::RightTrigger);
    }
    match detect_button_source(baseline, current) {
        Some(b) => Some(TriggerSource::Button(b)),
        None => None,
    }
}

/// An ongoing calibration walk-through for one device.
#[derive(Clone, Debug)]
pub struct CalibrationSession {
    pub working: DeviceCalibrationProfile,
    pub baseline: ControllerState,
    pub step_index: usize,
    pub waiting_for_idle: bool,
}

impl CalibrationSession {
    /// A walk-through that starts from the device's stored profile (or a fresh
    /// one), waiting for the controls to be released if anything is held.
    pub fn new(current_device: &InputDeviceInfo, existing: &CalibrationStore, raw_state: ControllerState) -> (r: CalibrationSession)
        ensures
            match lookup_profile(existing.devices@, spec_device_key(current_device)) {
                Some(p) => r.working == p,
                None => r.working.device_key@ == spec_device_key(current_device)
                    && r.working.device_name@ == current_device.spec_product_label()
                    && r.working.buttons == ButtonCalibrationMap::spec_identity()
                    && r.working.left_trigger == TriggerSource::LeftTrigger
                    && r.working.right_trigger == TriggerSource::RightTrigger,
            },
            r.baseline == raw_state,
            r.step_index == 0,
            r.waiting_for_idle == !spec_is_capture_idle(raw_state),
    {
        CalibrationSession {
            working: existing.profile_or_default(current_device),
            baseline: raw_state,
            step_index: 0,
            waiting_for_idle: !is_capture_idle(raw_state),
        }
    }

    pub fn current_step(&self) -> (r: Option<CalibrationStep>)
        ensures
            r == CalibrationStep::spec_at(self.step_index as int),
    {
        CalibrationStep::at(self.step_index)
    }

    /// Whether the walk-through calibrates `device`.
    pub fn is_for(&self, device: &InputDeviceInfo) -> (r: bool)
        ensures
            r == (self.working.device_key@ == spec_device_key(device)),
    {
        self.working.device_key == device_calibration_key(device)
    }

    /// One polling step of the walk-through with the device's raw state.
    /// When all steps are done the working profile is stored and `true` is
    /// returned: the walk-through is over.  Otherwise the session waits for
    /// the controls to be released, then records the next newly pressed
    /// input for the current step and moves to the next step.
    pub fn advance(
        &mut self,
        current_device: Option<&InputDeviceInfo>,
        raw_state: ControllerState,
        calibrations: &mut CalibrationStore,
    ) -> (finished: bool)
        ensures
            ({
                let applies = current_device matches Some(d) && old(self).working.device_key@
                    == spec_device_key(d);
                let step = CalibrationStep::spec_at(old(self).step_index as int);
                &&& !applies ==> !finished && *final(self) == *old(self)
                    && final(calibrations).devices@ == old(calibrations).devices@
                &&& applies && step.is_none() ==> finished && *final(self) == *old(self)
                    && final(calibrations).devices@ == upserted(
                    old(calibrations).devices@,
                    old(self).working,
                )
                &&& applies && step.is_some() ==> !finished && final(calibrations).devices@
                    == old(calibrations).devices@
                &&& applies && step.is_some() && old(self).waiting_for_idle ==> (if spec_is_capture_idle(
                    raw_state,
                ) {
                    *final(self) == (CalibrationSession {
                        baseline: raw_state,
                        waiting_for_idle: false,
                        ..*old(self)
                    })
                } else {
                    *final(self) == *old(self)
                })
                &&& (applies && !old(self).waiting_for_idle) ==> match step {
                    Some(CalibrationStep::Button(target)) => match first_newly_pressed_from(old(self).baseline, raw_state, 0) {
                    Some(source) => final(self).step_index == old(self).step_index + 1
                        && final(self).waiting_for_idle && final(self).baseline
                        == old(self).baseline && final(self).working.buttons.spec_source(target)
                        == source && (forall|t: ButtonTarget|
                        t != target ==> #[trigger] final(self).working.buttons.spec_source(t)
                            == old(self).working.buttons.spec_source(t))
                        && final(self).working.left_trigger == old(self).working.left_trigger
                        && final(self).working.right_trigger == old(self).working.right_trigger
                        && final(self).working.device_key == old(self).working.device_key
                        && final(self).working.device_name == old(self).working.device_name,
                    None => *final(self) == *old(self),
                },
                    Some(CalibrationStep::Trigger(side)) => match spec_detect_trigger_source(old(self).baseline, raw_state) {
                    Some(source) => final(self).step_index == old(self).step_index + 1
                        && final(self).waiting_for_idle && final(self).baseline
                        == old(self).baseline && final(self).working.buttons
                        == old(self).working.buttons && final(self).working.left_trigger == (
                    if side == TriggerSide::Left {
                        source
                    } else {
                        old(self).working.left_trigger
                    }) && final(self).working.right_trigger == (if side == TriggerSide::Right {
                        source
                    } else {
                        old(self).working.right_trigger
                    }) && final(self).working.device_key == old(self).working.device_key
                        && final(self).working.device_name == old(self).working.device_name,
                    None => *final(self) == *old(self),
                },
                    None => true,
                }
            }),
    {
        let device = match current_device {
            Some(d) => d,
            None => return false,
        };
        if !self.is_for(device) {
            return false;
        }
        let step = self.current_step();
        let step = match step {
            Some(s) => s,
            None => {
                calibrations.upsert(self.working.duplicate());
                return true;
            },
        };
        if self.waiting_for_idle {
            if is_capture_idle(raw_state) {
                self.baseline = raw_state;
                self.waiting_for_idle = false;
            }
            return false;
        }
        match step {
            CalibrationStep::Button(target) => {
                if let Some(source) = detect_button_source(self.baseline, raw_state) {
                    self.working.set_button_source(target, source);
                    self.step_index = self.step_index + 1;
                    self.waiting_for_idle = true;
                }
            },
            CalibrationStep::Trigger(side) => {
                if let Some(source) = detect_trigger_source(self.baseline, raw_state) {
                    self.working.set_trigger_source(side, source);
                    self.step_index = self.step_index + 1;
                    self.waiting_for_idle = true;
                }
            },
        }
        false
    }
}


/// Each button source reads the physical button of the same name.
pub proof fn lemma_button_source_reads_named_button(b: Buttons)
    ensures
        spec_button_source_value(b, ButtonSource::Square) == b.square,
        spec_button_source_value(b, ButtonSource::Circle) == b.circle,
        spec_button_source_value(b, ButtonSource::Cross) == b.cross,
        spec_button_source_value(b, ButtonSource::Triangle) == b.triangle,
        spec_button_source_value(b, ButtonSource::L1) == b.l1,
        spec_button_source_value(b, ButtonSource::R1) == b.r1,
        spec_button_source_value(b, ButtonSource::L2Button) == b.l2_button,
        spec_button_source_value(b, ButtonSource::R2Button) == b.r2_button,
        spec_button_source_value(b, ButtonSource::Create) == b.create,
        spec_button_source_value(b, ButtonSource::Options) == b.options,
        spec_button_source_value(b, ButtonSource::L3) == b.l3,
        spec_button_source_value(b, ButtonSource::R3) == b.r3,
        spec_button_source_value(b, ButtonSource::Ps) == b.ps,
        spec_button_source_value(b, ButtonSource::Touchpad) == b.touchpad,
{
}

/// Each calibrated button reads the source that the map stores for that
/// same button; the digital trigger buttons follow the given trigger travel
/// and PS, Touchpad and Mute pass through.
pub proof fn lemma_calibrated_buttons_follow_map(raw: Buttons, map: ButtonCalibrationMap, l2: u8, r2: u8)
    ensures
        ({
            let c = spec_calibrated_buttons(raw, map, l2, r2);
            &&& c.square == spec_button_source_value(raw, map.square)
            &&& c.circle == spec_button_source_value(raw, map.circle)
            &&& c.cross == spec_button_source_value(raw, map.cross)
            &&& c.triangle == spec_button_source_value(raw, map.triangle)
            &&& c.l1 == spec_button_source_value(raw, map.l1)
            &&& c.r1 == spec_button_source_value(raw, map.r1)
            &&& c.create == spec_button_source_value(raw, map.create)
            &&& c.options == spec_button_source_value(raw, map.options)
            &&& c.l3 == spec_button_source_value(raw, map.l3)
            &&& c.r3 == spec_button_source_value(raw, map.r3)
            &&& c.l2_button == (l2 >= 30)
            &&& c.r2_button == (r2 >= 30)
            &&& c.ps == raw.ps
            &&& c.touchpad == raw.touchpad
            &&& c.mute == raw.mute
        }),
{
}

/// A profile that feeds every button and trigger from the one of the same
/// name leaves the sticks, the d-pad, the triggers and every button but the
/// digital trigger buttons as they were; those follow the trigger travel.
pub proof fn lemma_identity_profile_keeps_input(raw: ControllerState, profile: DeviceCalibrationProfile)
    requires
        profile.buttons == (ButtonCalibrationMap { square: ButtonSource::Square, circle: ButtonSource::Circle, cross: ButtonSource::Cross, triangle: ButtonSource::Triangle, l1: ButtonSource::L1, r1: ButtonSource::R1, create: ButtonSource::Create, options: ButtonSource::Options, l3: ButtonSource::L3, r3: ButtonSource::R3 }),
        profile.left_trigger == TriggerSource::LeftTrigger,
        profile.right_trigger == TriggerSource::RightTrigger,
    ensures
        ({
            let out = spec_calibrated(raw, profile);
            &&& out.left_stick == raw.left_stick
            &&& out.right_stick == raw.right_stick
            &&& out.dpad == raw.dpad
            &&& out.l2 == raw.l2
            &&& out.r2 == raw.r2
            &&& out.buttons.square == raw.buttons.square
            &&& out.buttons.circle == raw.buttons.circle
            &&& out.buttons.cross == raw.buttons.cross
            &&& out.buttons.triangle == raw.buttons.triangle
            &&& out.buttons.l1 == raw.buttons.l1
            &&& out.buttons.r1 == raw.buttons.r1
            &&& out.buttons.create == raw.buttons.create
            &&& out.buttons.options == raw.buttons.options
            &&& out.buttons.l3 == raw.buttons.l3
            &&& out.buttons.r3 == raw.buttons.r3
            &&& out.buttons.ps == raw.buttons.ps
            &&& out.buttons.touchpad == raw.buttons.touchpad
            &&& out.buttons.mute == raw.buttons.mute
            &&& out.buttons.l2_button == (raw.l2 >= 30)
            &&& out.buttons.r2_button == (raw.r2 >= 30)
        }),
{
}

} // verus!

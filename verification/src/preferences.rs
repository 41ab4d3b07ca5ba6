//! The user's choices: the preferred input device, the jump button, and
//! where the settings file lives.
use vstd::prelude::*;
use crate::assist::JumpButton;
use crate::dualsense::{DeviceView, InputDeviceInfo};
use crate::selection::{entry_views, first_with_path, position, position_of_path};
use crate::text::{seq_starts_with, str_starts_with};

verus! {

/// The prefix of the paths of XInput entries.
pub open spec fn xinput_path_prefix() -> Seq<char> {
    "xinput:"@
}

/// A remembered device path, dropped when it names an XInput slot: those
/// cannot be opened as input sources.
pub fn sanitize_preferred_device_path(preferred_device_path: Option<String>) -> (r: Option<String>)
    ensures
        match preferred_device_path {
            Some(path) => if seq_starts_with(path@, xinput_path_prefix()) {
                r.is_none()
            } else {
                r == Some(path)
            },
            None => r.is_none(),
        },
{
    match preferred_device_path {
        Some(path) => {
            if str_starts_with(path.as_str(), "xinput:") {
                None
            } else {
                Some(path)
            }
        },
        None => None,
    }
}

/// The jump button offered at position `i` of the settings screen.
pub open spec fn choice_button(i: int) -> JumpButton {
    if i == 0 {
        JumpButton::Cross
    } else if i == 1 {
        JumpButton::Circle
    } else if i == 2 {
        JumpButton::Square
    } else if i == 3 {
        JumpButton::Triangle
    } else if i == 4 {
        JumpButton::L1
    } else if i == 5 {
        JumpButton::R1
    } else if i == 6 {
        JumpButton::L2Button
    } else if i == 7 {
        JumpButton::R2Button
    } else if i == 8 {
        JumpButton::L3
    } else if i == 9 {
        JumpButton::R3
    } else if i == 10 {
        JumpButton::Create
    } else if i == 11 {
        JumpButton::Options
    } else if i == 12 {
        JumpButton::Touchpad
    } else {
        JumpButton::Ps
    }
}

/// The caption of the jump button at position `i`, naming it on both Xbox
/// and PlayStation pads.
pub open spec fn choice_label(i: int) -> Seq<char> {
    if i == 0 {
        "A / Cross"@
    } else if i == 1 {
        "B / Circle"@
    } else if i == 2 {
        "X / Square"@
    } else if i == 3 {
        "Y / Triangle"@
    } else if i == 4 {
        "LB / L1"@
    } else if i == 5 {
        "RB / R1"@
    } else if i == 6 {
        "LT / L2"@
    } else if i == 7 {
        "RT / R2"@
    } else if i == 8 {
        "L3"@
    } else if i == 9 {
        "R3"@
    } else if i == 10 {
        "Back / Create"@
    } else if i == 11 {
        "Start / Options"@
    } else if i == 12 {
        "Touchpad"@
    } else {
        "PS / Home"@
    }
}

/// The jump buttons offered on the settings screen, with their captions.
pub fn jump_button_choices() -> (r: Vec<(JumpButton, &'static str)>)
    ensures
        r@.len() == 14,
        forall|i: int| 0 <= i < 14 ==> (#[trigger] r@[i]).0 == choice_button(i) && r@[i].1@ == choice_label(i),
{
    let r = vec![
        (JumpButton::Cross, "A / Cross"),
        (JumpButton::Circle, "B / Circle"),
        (JumpButton::Square, "X / Square"),
        (JumpButton::Triangle, "Y / Triangle"),
        (JumpButton::L1, "LB / L1"),
        (JumpButton::R1, "RB / R1"),
        (JumpButton::L2Button, "LT / L2"),
        (JumpButton::R2Button, "RT / R2"),
        (JumpButton::L3, "L3"),
        (JumpButton::R3, "R3"),
        (JumpButton::Create, "Back / Create"),
        (JumpButton::Options, "Start / Options"),
        (JumpButton::Touchpad, "Touchpad"),
        (JumpButton::Ps, "PS / Home"),
    ];
    r
}

/// The position of the first supported entry of `s`, from `i` on.
pub open spec fn first_supported(s: Seq<DeviceView>, i: int) -> Option<int>
    decreases s.len() - i,
{
    if i < 0 || i >= s.len() {
        None
    } else if s[i].backend.is_some() {
        Some(i)
    } else {
        first_supported(s, i + 1)
    }
}

fn position_of_supported(entries: &Vec<InputDeviceInfo>) -> (r: Option<usize>)
    ensures
        position(r) == first_supported(entry_views(entries@), 0),
        r matches Some(i) ==> i < entries@.len(),
{
    let ghost v = entry_views(entries@);
    let mut i: usize = 0;
    while i < entries.len()
        invariant
            i <= entries@.len(),
            v == entry_views(entries@),
            first_supported(v, 0) == first_supported(v, i as int),
        decreases entries@.len() - i,
    {
        if entries[i].is_supported() {
            assert(v[i as int].backend.is_some());
            return Some(i);
        }
        i = i + 1;
    }
    None
}

/// The device the settings screen shows as the current one: the active
/// device; else the entry with the preferred path; else, with no preferred
/// path, the first supported entry.
pub fn current_detected_device<'a>(
    active_device: Option<&'a InputDeviceInfo>,
    available_devices: &'a Vec<InputDeviceInfo>,
    preferred_device_path: Option<&str>,
) -> (r: Option<&'a InputDeviceInfo>)
    ensures
        active_device.is_some() ==> r == active_device,
        active_device.is_none() ==> match preferred_device_path {
            Some(path) => match first_with_path(entry_views(available_devices@), path@, 0) {
                Some(i) => r == Some(&available_devices@[i]),
                None => r.is_none(),
            },
            None => match first_supported(entry_views(available_devices@), 0) {
                Some(i) => r == Some(&available_devices@[i]),
                None => r.is_none(),
            },
        },
{
    if let Some(active) = active_device {
        return Some(active);
    }
    match preferred_device_path {
        Some(path) => match position_of_path(available_devices, path) {
            Some(i) => Some(&available_devices[i]),
            None => None,
        },
        None => match position_of_supported(available_devices) {
            Some(i) => Some(&available_devices[i]),
            None => None,
        },
    }
}

/// Name of the settings directory.
pub const SETTINGS_DIR_NAME: &'static str = "resonance-bhop";

/// Name of the settings file.
pub const SETTINGS_FILE_NAME: &'static str = "settings.toml";

/// Why no settings location could be found.
#[derive(Clone, Copy, Debug, PartialEq, Eq)]
pub enum SettingsPathError {
    /// Neither the per-user application data directory nor the current
    /// directory is known.
    NoBaseDirectory,
}

/// The components of the settings file's path: the per-user application
/// data directory (`APPDATA`) when it is known, else the current directory,
/// then the settings directory and the file name.
pub fn settings_file_path(appdata: Option<&str>, current_dir: Option<&str>) -> (r: Result<
    Vec<String>,
    SettingsPathError,
>)
    ensures
        match appdata {
            Some(base) => r matches Ok(parts) && parts@.len() == 3 && parts@[0]@ == base@
                && parts@[1]@ == SETTINGS_DIR_NAME@ && parts@[2]@ == SETTINGS_FILE_NAME@,
            None => match current_dir {
                Some(base) => r matches Ok(parts) && parts@.len() == 3 && parts@[0]@ == base@
                    && parts@[1]@ == SETTINGS_DIR_NAME@ && parts@[2]@ == SETTINGS_FILE_NAME@,
                None => r == Err::<Vec<String>, SettingsPathError>(
                    SettingsPathError::NoBaseDirectory,
                ),
            },
        },
{
    let base = match appdata {
        Some(dir) => dir,
        None => match current_dir {
            Some(dir) => dir,
            None => return Err(SettingsPathError::NoBaseDirectory),
        },
    };
    let mut parts: Vec<String> = Vec::new();
    parts.push(String::from_str(base));
    parts.push(String::from_str(SETTINGS_DIR_NAME));
    parts.push(String::from_str(SETTINGS_FILE_NAME));
    Ok(parts)
}

} // verus!

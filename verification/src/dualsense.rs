//! Input devices: identification of HID controllers, their transport, and
//! the byte layouts of the DualSense and Switch Pro input reports.
use vstd::prelude::*;
use crate::assist::{
    Buttons, ControllerState, DpadDirection, StickState, compose_dpad, composed_direction,
    hat_direction,
};
use crate::generic_hid::{
    GenericHidParser, GenericParserError, descriptor_parser_outcome, spec_parse_with,
};
use crate::text::{
    seq_contains, str_contains, str_eq, upper_contains, upper_seq, append_decimal_u64,
    decimal_text,
};

verus! {

pub const SONY_VENDOR_ID: u16 = 0x054c;
pub const DUALSENSE_PRODUCT_ID: u16 = 0x0ce6;
pub const DUALSENSE_EDGE_PRODUCT_ID: u16 = 0x0df2;
pub const DUALSHOCK4_PRODUCT_ID: u16 = 0x05c4;
pub const DUALSHOCK4_V2_PRODUCT_ID: u16 = 0x09cc;
pub const NINTENDO_VENDOR_ID: u16 = 0x057e;
pub const SWITCH_PRO_PRODUCT_ID: u16 = 0x2009;
pub const MICROSOFT_VENDOR_ID: u16 = 0x045e;
pub const XBOX360_WINDOWS_PRODUCT_ID: u16 = 0x028e;

pub const SWITCH_USB_REPORT_ID: u8 = 0x80;
pub const SWITCH_USB_SUBCOMMAND_WRAPPER: u8 = 0x92;
pub const SWITCH_USB_SUBCOMMAND_HEADER: u8 = 0x31;
pub const SWITCH_USB_HANDSHAKE: u8 = 0x02;
pub const SWITCH_USB_BAUD_RATE: u8 = 0x03;
pub const SWITCH_USB_DISABLE_TIMEOUT: u8 = 0x04;
pub const SWITCH_SUBCOMMAND_REPORT_ID: u8 = 0x01;
pub const SWITCH_SUBCOMMAND_SET_INPUT_REPORT_MODE: u8 = 0x03;
pub const SWITCH_SUBCOMMAND_ACK_NOP: u8 = 0x33;
pub const SWITCH_INPUT_REPORT_MODE_FULL: u8 = 0x30;
pub const SWITCH_USB_OUTPUT_REPORT_LEN: usize = 64;

/// Where a device entry came from.
#[derive(Clone, Copy, Debug, PartialEq, Eq, Structural)]
pub enum InputSourceKind {
    Hid,
    XInput,
}

impl InputSourceKind {
    pub open spec fn spec_name(self) -> Seq<char> {
        match self {
            InputSourceKind::Hid => "Hid"@,
            InputSourceKind::XInput => "XInput"@,
        }
    }

    /// The variant's name, as in the device key.
    pub fn name(self) -> (r: &'static str)
        ensures
            r@ == self.spec_name(),
    {
        match self {
            InputSourceKind::Hid => "Hid",
            InputSourceKind::XInput => "XInput",
        }
    }
}

#[derive(Clone, Copy, Debug, PartialEq, Eq, Structural)]
pub enum InputBackend {
    DualSense,
    DualSenseEdge,
    DualShock4,
    DualShock4V2,
    NintendoSwitchPro,
    GenericGamepad,
    GenericJoystick,
}

impl InputBackend {
    pub open spec fn spec_label(self) -> Seq<char> {
        match self {
            InputBackend::DualSense => "DualSense"@,
            InputBackend::DualSenseEdge => "DualSense Edge"@,
            InputBackend::DualShock4 => "DualShock 4"@,
            InputBackend::DualShock4V2 => "DualShock 4"@,
            InputBackend::NintendoSwitchPro => "Switch Pro Controller"@,
            InputBackend::GenericGamepad => "Generic Gamepad"@,
            InputBackend::GenericJoystick => "Generic Joystick"@,
        }
    }

    pub open spec fn spec_priority(self) -> u8 {
        match self {
            InputBackend::DualSenseEdge => 6,
            InputBackend::DualSense => 5,
            InputBackend::DualShock4V2 => 4,
            InputBackend::DualShock4 => 3,
            InputBackend::NintendoSwitchPro => 3,
            InputBackend::GenericGamepad => 2,
            InputBackend::GenericJoystick => 1,
        }
    }

    pub open spec fn spec_is_generic(self) -> bool {
        self == InputBackend::GenericGamepad || self == InputBackend::GenericJoystick
    }

    pub fn label(self) -> (r: &'static str)
        ensures
            r@ == self.spec_label(),
    {
        match self {
            InputBackend::DualSense => "DualSense",
            InputBackend::DualSenseEdge => "DualSense Edge",
            InputBackend::DualShock4 => "DualShock 4",
            InputBackend::DualShock4V2 => "DualShock 4",
            InputBackend::NintendoSwitchPro => "Switch Pro Controller",
            InputBackend::GenericGamepad => "Generic Gamepad",
            InputBackend::GenericJoystick => "Generic Joystick",
        }
    }

    pub fn priority(self) -> (r: u8)
        ensures
            r == self.spec_priority(),
    {
        match self {
            InputBackend::DualSenseEdge => 6,
            InputBackend::DualSense => 5,
            InputBackend::DualShock4V2 => 4,
            InputBackend::DualShock4 => 3,
            InputBackend::NintendoSwitchPro => 3,
            InputBackend::GenericGamepad => 2,
            InputBackend::GenericJoystick => 1,
        }
    }

    pub fn is_generic(self) -> (r: bool)
        ensures
            r == self.spec_is_generic(),
    {
        match self {
            InputBackend::GenericGamepad | InputBackend::GenericJoystick => true,
            _ => false,
        }
    }
}

#[derive(Clone, Copy, Debug, PartialEq, Eq, Structural)]
pub enum ConnectionMode {
    Usb,
    Bluetooth,
    Unknown,
}

impl ConnectionMode {
    pub open spec fn spec_label(self) -> Seq<char> {
        match self {
            ConnectionMode::Usb => "USB"@,
            ConnectionMode::Bluetooth => "Bluetooth"@,
            ConnectionMode::Unknown => "Unknown transport"@,
        }
    }

    pub fn label(self) -> (r: &'static str)
        ensures
            r@ == self.spec_label(),
    {
        match self {
            ConnectionMode::Usb => "USB",
            ConnectionMode::Bluetooth => "Bluetooth",
            ConnectionMode::Unknown => "Unknown transport",
        }
    }
}

/// What the HID layer reports about one device interface, as plain values.
#[derive(Clone, Debug, PartialEq, Eq)]
pub struct HidDeviceRecord {
    pub path: String,
    pub vendor_id: u16,
    pub product_id: u16,
    pub usage_page: u16,
    pub usage: u16,
    pub interface_number: i32,
    pub serial_number: Option<String>,
    pub manufacturer: Option<String>,
    pub product: Option<String>,
}

#[derive(Clone, Debug, PartialEq, Eq)]
pub struct InputDeviceInfo {
    pub path: String,
    pub source_kind: InputSourceKind,
    pub vendor_id: u16,
    pub product_id: u16,
    pub usage_page: u16,
    pub usage: u16,
    pub interface_number: i32,
    pub serial_number: Option<String>,
    pub manufacturer: String,
    pub product: String,
    pub backend: Option<InputBackend>,
    pub connection_mode: ConnectionMode,
}

/// The model of a device entry: its fields, with text as character
/// sequences.
pub struct DeviceView {
    pub path: Seq<char>,
    pub source_kind: InputSourceKind,
    pub vendor_id: u16,
    pub product_id: u16,
    pub usage_page: u16,
    pub usage: u16,
    pub interface_number: i32,
    pub serial_number: Option<Seq<char>>,
    pub manufacturer: Seq<char>,
    pub product: Seq<char>,
    pub backend: Option<InputBackend>,
    pub connection_mode: ConnectionMode,
}

/// The text of an optional string, if present.
pub open spec fn optional_text(s: Option<String>) -> Option<Seq<char>> {
    match s {
        Some(t) => Some(t@),
        None => None,
    }
}

impl View for InputDeviceInfo {
    type V = DeviceView;

    open spec fn view(&self) -> DeviceView {
        DeviceView {
            path: self.path@,
            source_kind: self.source_kind,
            vendor_id: self.vendor_id,
            product_id: self.product_id,
            usage_page: self.usage_page,
            usage: self.usage,
            interface_number: self.interface_number,
            serial_number: optional_text(self.serial_number),
            manufacturer: self.manufacturer@,
            product: self.product@,
            backend: self.backend,
            connection_mode: self.connection_mode,
        }
    }
}

/// Priority key of a device: supported first, then by backend priority, then
/// primary input interfaces, gamepads and generic-desktop usage pages.
pub open spec fn device_priority(d: DeviceView) -> InputPriority {
    (
        d.backend.is_some(),
        match d.backend {
            Some(b) => b.spec_priority(),
            None => 0,
        },
        d.usage_page == 0x01 && (d.usage == 0x04 || d.usage == 0x05),
        d.usage == 0x05,
        d.usage_page == 0x01,
    )
}

/// The manufacturer-qualified product name.
pub open spec fn qualified_product(d: DeviceView) -> Seq<char> {
    if d.manufacturer == "Unknown manufacturer"@ {
        d.product
    } else {
        d.product + " ("@ + d.manufacturer + ")"@
    }
}

/// The name shown for a device: the product name when it already names a
/// dedicated backend, the backend's name for other dedicated backends, and
/// the manufacturer-qualified product name otherwise.
pub open spec fn device_product_label(d: DeviceView) -> Seq<char> {
    match d.backend {
        Some(b) => if !b.spec_is_generic() && seq_contains(d.product, b.spec_label()) {
            d.product
        } else if !b.spec_is_generic() {
            b.spec_label()
        } else {
            qualified_product(d)
        },
        None => qualified_product(d),
    }
}

/// The entry of an XInput slot with this label.
pub open spec fn xinput_entry_view(slot: u32, label: Seq<char>) -> DeviceView {
    DeviceView {
        path: "xinput:"@ + decimal_text(slot as int),
        source_kind: InputSourceKind::XInput,
        vendor_id: 0,
        product_id: 0,
        usage_page: 0,
        usage: 0,
        interface_number: -1i32,
        serial_number: None,
        manufacturer: "Unknown manufacturer"@,
        product: label,
        backend: None,
        connection_mode: ConnectionMode::Unknown,
    }
}

/// The entry that a HID device interface gives.
pub open spec fn hid_entry_view(info: HidDeviceRecord) -> DeviceView {
    DeviceView {
        path: info.path@,
        source_kind: InputSourceKind::Hid,
        vendor_id: info.vendor_id,
        product_id: info.product_id,
        usage_page: info.usage_page,
        usage: info.usage,
        interface_number: info.interface_number,
        serial_number: optional_text(info.serial_number),
        manufacturer: match info.manufacturer {
            Some(m) => m@,
            None => "Unknown manufacturer"@,
        },
        product: match info.product {
            Some(p) => p@,
            None => "Unknown product"@,
        },
        backend: spec_backend_for(&info),
        connection_mode: spec_infer_connection_mode(info.path@, info.vendor_id, info.product_id),
    }
}

/// The text of an optional string, empty when absent.
pub open spec fn text_or_empty(s: Option<String>) -> Seq<char> {
    match s {
        Some(t) => t@,
        None => Seq::empty(),
    }
}

/// The text of an optional string slice, empty when absent.
pub open spec fn str_or_empty(s: Option<&str>) -> Seq<char> {
    match s {
        Some(t) => t@,
        None => Seq::empty(),
    }
}

/// Priority key of a device entry: supported first, then by backend
/// priority, then primary input interfaces, gamepads and generic-desktop
/// usage pages.
pub type InputPriority = (bool, u8, bool, bool, bool);

impl InputDeviceInfo {
    pub open spec fn spec_is_supported(&self) -> bool {
        self.backend.is_some()
    }

    pub open spec fn spec_is_primary_input_interface(&self) -> bool {
        self.usage_page == 0x01 && (self.usage == 0x04 || self.usage == 0x05)
    }

    pub open spec fn spec_is_xinput(&self) -> bool {
        self.source_kind == InputSourceKind::XInput
    }

    pub open spec fn spec_input_priority(&self) -> InputPriority {
        device_priority(self@)
    }

    pub open spec fn spec_backend_label(&self) -> Seq<char> {
        match self.backend {
            Some(b) => b.spec_label() + " "@ + self.connection_mode.spec_label(),
            None => "Unsupported HID"@,
        }
    }

    pub open spec fn spec_product_label(&self) -> Seq<char> {
        device_product_label(self@)
    }

    /// An entry for an XInput slot.  XInput pads are listed but cannot be
    /// opened as HID input sources.
    pub fn xinput(slot: u32, label: &str) -> (r: InputDeviceInfo)
        ensures
            r@ == xinput_entry_view(slot, label@),
            r.path@ == "xinput:"@ + decimal_text(slot as int),
            r.source_kind == InputSourceKind::XInput,
            r.vendor_id == 0 && r.product_id == 0,
            r.usage_page == 0 && r.usage == 0,
            r.interface_number == -1,
            r.serial_number.is_none(),
            r.manufacturer@ == "Unknown manufacturer"@,
            r.product@ == label@,
            r.backend.is_none(),
            r.connection_mode == ConnectionMode::Unknown,
    {
        let mut path = String::from_str("xinput:");
        append_decimal_u64(&mut path, slot as u64);
        InputDeviceInfo {
            path,
            source_kind: InputSourceKind::XInput,
            vendor_id: 0,
            product_id: 0,
            usage_page: 0,
            usage: 0,
            interface_number: -1,
            serial_number: None,
            manufacturer: String::from_str("Unknown manufacturer"),
            product: String::from_str(label),
            backend: None,
            connection_mode: ConnectionMode::Unknown,
        }
    }

    pub fn is_supported(&self) -> (r: bool)
        ensures
            r == self.spec_is_supported(),
    {
        self.backend.is_some()
    }

    /// XInput entries are shown but never opened.
    pub fn is_xinput(&self) -> (r: bool)
        ensures
            r == self.spec_is_xinput(),
    {
        match self.source_kind {
            InputSourceKind::XInput => true,
            InputSourceKind::Hid => false,
        }
    }

    /// Whether the user may pick this entry as the input source.
    pub fn is_manual_selectable(&self) -> (r: bool)
        ensures
            r == (self.spec_is_supported() && !self.spec_is_xinput()),
    {
        self.is_supported() && !self.is_xinput()
    }

    pub fn is_primary_input_interface(&self) -> (r: bool)
        ensures
            r == self.spec_is_primary_input_interface(),
    {
        self.usage_page == 0x01 && (self.usage == 0x04 || self.usage == 0x05)
    }

    pub fn input_priority(&self) -> (r: InputPriority)
        ensures
            r == self.spec_input_priority(),
    {
        input_priority(self)
    }

    /// How the device is reached: `XInput` for XInput slots, else its
    /// transport.
    pub fn transport_label(&self) -> (r: &'static str)
        ensures
            r@ == if self.spec_is_xinput() {
                "XInput"@
            } else {
                self.connection_mode.spec_label()
            },
    {
        if self.is_xinput() {
            "XInput"
        } else {
            self.connection_mode.label()
        }
    }

    pub fn backend_label(&self) -> (r: String)
        ensures
            r@ == self.spec_backend_label(),
    {
        match self.backend {
            Some(backend) => {
                let mut s = String::from_str(backend.label());
                s.append(" ");
                s.append(self.connection_mode.label());
                s
            },
            None => String::from_str("Unsupported HID"),
        }
    }

    pub fn product_label(&self) -> (r: String)
        ensures
            r@ == self.spec_product_label(),
    {
        if let Some(backend) = self.backend {
            if !backend.is_generic() {
                if str_contains(self.product.as_str(), backend.label()) {
                    return self.product.clone();
                }
                return String::from_str(backend.label());
            }
        }
        if str_eq(self.manufacturer.as_str(), "Unknown manufacturer") {
            self.product.clone()
        } else {
            let mut s = self.product.clone();
            s.append(" (");
            s.append(self.manufacturer.as_str());
            s.append(")");
            s
        }
    }

    /// A copy of the entry, field for field.
    pub fn copied(&self) -> (r: InputDeviceInfo)
        ensures
            r@ == self@,
    {
        InputDeviceInfo {
            path: self.path.clone(),
            source_kind: self.source_kind,
            vendor_id: self.vendor_id,
            product_id: self.product_id,
            usage_page: self.usage_page,
            usage: self.usage,
            interface_number: self.interface_number,
            serial_number: match &self.serial_number {
                Some(s) => Some(s.clone()),
                None => None,
            },
            manufacturer: self.manufacturer.clone(),
            product: self.product.clone(),
            backend: self.backend,
            connection_mode: self.connection_mode,
        }
    }

    /// The entry for a HID device interface.
    pub fn from_hid(info: &HidDeviceRecord) -> (r: InputDeviceInfo)
        ensures
            r@ == hid_entry_view(*info),
            r.path == info.path,
            r.source_kind == InputSourceKind::Hid,
            r.vendor_id == info.vendor_id,
            r.product_id == info.product_id,
            r.usage_page == info.usage_page,
            r.usage == info.usage,
            r.interface_number == info.interface_number,
            r.serial_number == info.serial_number,
            r.manufacturer@ == match info.manufacturer {
                Some(m) => m@,
                None => "Unknown manufacturer"@,
            },
            r.product@ == match info.product {
                Some(p) => p@,
                None => "Unknown product"@,
            },
            r.backend == spec_backend_for(info),
            r.connection_mode == spec_infer_connection_mode(
                info.path@,
                info.vendor_id,
                info.product_id,
            ),
    {
        InputDeviceInfo {
            path: info.path.clone(),
            source_kind: InputSourceKind::Hid,
            vendor_id: info.vendor_id,
            product_id: info.product_id,
            usage_page: info.usage_page,
            usage: info.usage,
            interface_number: info.interface_number,
            serial_number: match &info.serial_number {
                Some(s) => Some(s.clone()),
                None => None,
            },
            manufacturer: match &info.manufacturer {
                Some(m) => m.clone(),
                None => String::from_str("Unknown manufacturer"),
            },
            product: match &info.product {
                Some(p) => p.clone(),
                None => String::from_str("Unknown product"),
            },
            backend: backend_for(info),
            connection_mode: connection_mode_for(info),
        }
    }
}

/// The priority key of a device entry.
pub fn input_priority(info: &InputDeviceInfo) -> (r: InputPriority)
    ensures
        r == info.spec_input_priority(),
{
    (
        info.is_supported(),
        match info.backend {
            Some(b) => b.priority(),
            None => 0,
        },
        info.is_primary_input_interface(),
        info.usage == 0x05,
        info.usage_page == 0x01,
    )
}

pub open spec fn spec_should_ignore_device_identity(
    vendor_id: u16,
    product_id: u16,
    manufacturer: Seq<char>,
    product: Seq<char>,
) -> bool {
    (vendor_id == MICROSOFT_VENDOR_ID && product_id == XBOX360_WINDOWS_PRODUCT_ID) || (
    seq_contains(upper_seq(manufacturer), "MICROSOFT"@) && (seq_contains(
        upper_seq(product),
        "XBOX 360 FOR WINDOWS"@,
    ) || seq_contains(upper_seq(product), "XBOX 360 CONTROLLER"@) || seq_contains(
        upper_seq(product),
        "XINPUT"@,
    )))
}

/// Whether a device is a virtual or shadow Xbox 360 pad that must not be used
/// as an input source (it would read back the tool's own output).
pub fn should_ignore_device_identity(
    vendor_id: u16,
    product_id: u16,
    manufacturer: Option<&str>,
    product: Option<&str>,
) -> (r: bool)
    ensures
        r == spec_should_ignore_device_identity(
            vendor_id,
            product_id,
            str_or_empty(manufacturer),
            str_or_empty(product),
        ),
{
    if vendor_id == MICROSOFT_VENDOR_ID && product_id == XBOX360_WINDOWS_PRODUCT_ID {
        return true;
    }
    proof {
        reveal_strlit("");
        assert(""@ =~= Seq::<char>::empty());
    }
    let manufacturer_text = match manufacturer {
        Some(m) => m,
        None => "",
    };
    let product_text = match product {
        Some(p) => p,
        None => "",
    };
    assert(manufacturer_text@ == str_or_empty(manufacturer));
    assert(product_text@ == str_or_empty(product));
    let manufacturer = manufacturer_text;
    let product = product_text;
    upper_contains(manufacturer, "MICROSOFT") && (upper_contains(product, "XBOX 360 FOR WINDOWS")
        || upper_contains(product, "XBOX 360 CONTROLLER") || upper_contains(product, "XINPUT"))
}

pub open spec fn spec_should_ignore_hid_device(info: &HidDeviceRecord) -> bool {
    let manufacturer = text_or_empty(info.manufacturer);
    let product = text_or_empty(info.product);
    spec_should_ignore_device_identity(info.vendor_id, info.product_id, manufacturer, product) || (
    seq_contains(upper_seq(info.path@), "IG_"@) && (seq_contains(
        upper_seq(manufacturer),
        "MICROSOFT"@,
    ) || seq_contains(upper_seq(product), "XBOX 360"@) || seq_contains(
        upper_seq(product),
        "XINPUT"@,
    )))
}

fn optional_str(s: &Option<String>) -> (r: &str)
    ensures
        r@ == text_or_empty(*s),
{
    proof {
        reveal_strlit("");
        assert(""@ =~= Seq::<char>::empty());
    }
    match s {
        Some(t) => t.as_str(),
        None => "",
    }
}

fn should_ignore_hid_device(info: &HidDeviceRecord) -> (r: bool)
    ensures
        r == spec_should_ignore_hid_device(info),
{
    let manufacturer = optional_str(&info.manufacturer);
    let product = optional_str(&info.product);
    let manufacturer_opt = match &info.manufacturer {
        Some(m) => Some(m.as_str()),
        None => None,
    };
    let product_opt = match &info.product {
        Some(p) => Some(p.as_str()),
        None => None,
    };
    if should_ignore_device_identity(
        info.vendor_id,
        info.product_id,
        manufacturer_opt,
        product_opt,
    ) {
        return true;
    }
    upper_contains(info.path.as_str(), "IG_") && (upper_contains(manufacturer, "MICROSOFT")
        || upper_contains(product, "XBOX 360") || upper_contains(product, "XINPUT"))
}

pub open spec fn spec_backend_for(info: &HidDeviceRecord) -> Option<InputBackend> {
    if spec_should_ignore_hid_device(info) {
        None
    } else if info.vendor_id == SONY_VENDOR_ID && info.product_id == DUALSENSE_PRODUCT_ID {
        Some(InputBackend::DualSense)
    } else if info.vendor_id == SONY_VENDOR_ID && info.product_id == DUALSENSE_EDGE_PRODUCT_ID {
        Some(InputBackend::DualSenseEdge)
    } else if info.vendor_id == SONY_VENDOR_ID && info.product_id == DUALSHOCK4_PRODUCT_ID {
        Some(InputBackend::DualShock4)
    } else if info.vendor_id == SONY_VENDOR_ID && info.product_id == DUALSHOCK4_V2_PRODUCT_ID {
        Some(InputBackend::DualShock4V2)
    } else if info.vendor_id == NINTENDO_VENDOR_ID && info.product_id == SWITCH_PRO_PRODUCT_ID {
        Some(InputBackend::NintendoSwitchPro)
    } else if info.usage_page == 0x01 && info.usage == 0x05 {
        Some(InputBackend::GenericGamepad)
    } else if info.usage_page == 0x01 && info.usage == 0x04 {
        Some(InputBackend::GenericJoystick)
    } else {
        None
    }
}

/// The backend that reads a HID device, if any.
pub fn backend_for(info: &HidDeviceRecord) -> (r: Option<InputBackend>)
    ensures
        r == spec_backend_for(info),
{
    if should_ignore_hid_device(info) {
        return None;
    }
    if info.vendor_id == SONY_VENDOR_ID {
        if info.product_id == DUALSENSE_PRODUCT_ID {
            return Some(InputBackend::DualSense);
        } else if info.product_id == DUALSENSE_EDGE_PRODUCT_ID {
            return Some(InputBackend::DualSenseEdge);
        } else if info.product_id == DUALSHOCK4_PRODUCT_ID {
            return Some(InputBackend::DualShock4);
        } else if info.product_id == DUALSHOCK4_V2_PRODUCT_ID {
            return Some(InputBackend::DualShock4V2);
        }
    }
    if info.vendor_id == NINTENDO_VENDOR_ID && info.product_id == SWITCH_PRO_PRODUCT_ID {
        return Some(InputBackend::NintendoSwitchPro);
    }
    if info.usage_page == 0x01 {
        if info.usage == 0x05 {
            return Some(InputBackend::GenericGamepad);
        } else if info.usage == 0x04 {
            return Some(InputBackend::GenericJoystick);
        }
    }
    None
}

pub open spec fn spec_infer_connection_mode(
    path: Seq<char>,
    vendor_id: u16,
    product_id: u16,
) -> ConnectionMode {
    let upper = upper_seq(path);
    if seq_contains(upper, "BTH"@) || seq_contains(upper, "BLUETOOTH"@) || seq_contains(
        upper,
        "{00001124-0000-1000-8000-00805F9B34FB}"@,
    ) || seq_contains(upper, "{00001812-0000-1000-8000-00805F9B34FB}"@) {
        ConnectionMode::Bluetooth
    } else if vendor_id == NINTENDO_VENDOR_ID && product_id == SWITCH_PRO_PRODUCT_ID {
        ConnectionMode::Usb
    } else if seq_contains(upper, "USB"@) || seq_contains(upper, "MI_"@) {
        ConnectionMode::Usb
    } else {
        ConnectionMode::Unknown
    }
}

/// The transport of a device, read from markers in its path.
pub fn infer_connection_mode(path: &str, vendor_id: u16, product_id: u16) -> (r: ConnectionMode)
    ensures
        r == spec_infer_connection_mode(path@, vendor_id, product_id),
{
    if upper_contains(path, "BTH") || upper_contains(path, "BLUETOOTH") || upper_contains(
        path,
        "{00001124-0000-1000-8000-00805F9B34FB}",
    ) || upper_contains(path, "{00001812-0000-1000-8000-00805F9B34FB}") {
        ConnectionMode::Bluetooth
    } else if vendor_id == NINTENDO_VENDOR_ID && product_id == SWITCH_PRO_PRODUCT_ID {
        ConnectionMode::Usb
    } else if upper_contains(path, "USB") || upper_contains(path, "MI_") {
        ConnectionMode::Usb
    } else {
        ConnectionMode::Unknown
    }
}

fn connection_mode_for(info: &HidDeviceRecord) -> (r: ConnectionMode)
    ensures
        r == spec_infer_connection_mode(info.path@, info.vendor_id, info.product_id),
{
    infer_connection_mode(info.path.as_str(), info.vendor_id, info.product_id)
}

pub open spec fn spec_should_list(info: &HidDeviceRecord) -> bool {
    !spec_should_ignore_hid_device(info) && (info.vendor_id == SONY_VENDOR_ID || (info.usage_page
        == 0x01 && (info.usage == 0x04 || info.usage == 0x05)))
}

/// Whether a HID device belongs in the device inventory.
pub fn should_list(info: &HidDeviceRecord) -> (r: bool)
    ensures
        r == spec_should_list(info),
{
    if should_ignore_hid_device(info) {
        return false;
    }
    info.vendor_id == SONY_VENDOR_ID || (info.usage_page == 0x01 && (info.usage == 0x04
        || info.usage == 0x05))
}

/// How well `candidate` matches a remembered device, or `None` when it is a
/// different device (other vendor or product, or both have serial numbers and
/// they differ).
pub open spec fn device_sticky_score(candidate: DeviceView, reference: DeviceView) -> Option<u32> {
    if candidate.vendor_id != reference.vendor_id || candidate.product_id != reference.product_id {
        None
    } else if candidate.serial_number.is_some() && reference.serial_number.is_some()
        && candidate.serial_number.unwrap() != reference.serial_number.unwrap() {
        None
    } else {
        Some(
            (160 + (if candidate.backend == reference.backend {
                40int
            } else {
                0
            }) + (if candidate.usage_page == reference.usage_page {
                20int
            } else {
                0
            }) + (if candidate.usage == reference.usage {
                20int
            } else {
                0
            }) + (if candidate.interface_number == reference.interface_number {
                14int
            } else {
                0
            }) + (if candidate.connection_mode == reference.connection_mode {
                10int
            } else {
                0
            }) + (if candidate.product == reference.product {
                8int
            } else {
                0
            }) + (if candidate.manufacturer == reference.manufacturer {
                8int
            } else {
                0
            }) + (if candidate.serial_number.is_some() && reference.serial_number.is_some()
                && candidate.serial_number.unwrap() == reference.serial_number.unwrap() {
                100int
            } else {
                0
            })) as u32,
        )
    }
}

/// How well `candidate` matches a remembered device.
pub open spec fn spec_sticky_match_score(
    candidate: &InputDeviceInfo,
    reference: &InputDeviceInfo,
) -> Option<u32> {
    device_sticky_score(candidate@, reference@)
}

/// How well `candidate` matches a remembered device.
pub fn sticky_match_score(candidate: &InputDeviceInfo, reference: &InputDeviceInfo) -> (r: Option<
    u32,
>)
    ensures
        r == spec_sticky_match_score(candidate, reference),
{
    if candidate.vendor_id != reference.vendor_id || candidate.product_id != reference.product_id {
        return None;
    }
    let serials_match = match (&candidate.serial_number, &reference.serial_number) {
        (Some(a), Some(b)) => {
            if !(*a == *b) {
                return None;
            }
            true
        },
        _ => false,
    };
    let mut score: u32 = 160;
    if candidate.backend == reference.backend {
        score = score + 40;
    }
    if candidate.usage_page == reference.usage_page {
        score = score + 20;
    }
    if candidate.usage == reference.usage {
        score = score + 20;
    }
    if candidate.interface_number == reference.interface_number {
        score = score + 14;
    }
    if candidate.connection_mode == reference.connection_mode {
        score = score + 10;
    }
    if candidate.product == reference.product {
        score = score + 8;
    }
    if candidate.manufacturer == reference.manufacturer {
        score = score + 8;
    }
    if serials_match {
        score = score + 100;
    }
    Some(score)
}

/// The controller state read from a DualSense-style report, with each
/// control at the given byte offset.
pub open spec fn spec_common_layout(
    report: Seq<u8>,
    left_x: int,
    left_y: int,
    right_x: int,
    right_y: int,
    l2: int,
    r2: int,
    buttons_1: int,
    buttons_2: int,
    buttons_3: int,
) -> ControllerState {
    let b1 = report[buttons_1];
    let b2 = report[buttons_2];
    let b3 = report[buttons_3];
    ControllerState {
        left_stick: StickState { raw_x: report[left_x], raw_y: report[left_y] },
        right_stick: StickState { raw_x: report[right_x], raw_y: report[right_y] },
        l2: report[l2],
        r2: report[r2],
        dpad: hat_direction((b1 & 0x0f) as int),
        buttons: Buttons {
            square: b1 & 0x10 != 0,
            circle: b1 & 0x40 != 0,
            cross: b1 & 0x20 != 0,
            triangle: b1 & 0x80 != 0,
            l1: b2 & 0x01 != 0,
            r1: b2 & 0x02 != 0,
            l2_button: b2 & 0x04 != 0,
            r2_button: b2 & 0x08 != 0,
            create: b2 & 0x10 != 0,
            options: b2 & 0x20 != 0,
            l3: b2 & 0x40 != 0,
            r3: b2 & 0x80 != 0,
            ps: b3 & 0x01 != 0,
            touchpad: b3 & 0x02 != 0,
            mute: b3 & 0x04 != 0,
        },
    }
}

fn parse_common_layout(
    report: &[u8],
    left_x: usize,
    left_y: usize,
    right_x: usize,
    right_y: usize,
    l2: usize,
    r2: usize,
    buttons_1: usize,
    buttons_2: usize,
    buttons_3: usize,
) -> (r: ControllerState)
    requires
        left_x < report@.len(),
        left_y < report@.len(),
        right_x < report@.len(),
        right_y < report@.len(),
        l2 < report@.len(),
        r2 < report@.len(),
        buttons_1 < report@.len(),
        buttons_2 < report@.len(),
        buttons_3 < report@.len(),
    ensures
        r == spec_common_layout(
            report@,
            left_x as int,
            left_y as int,
            right_x as int,
            right_y as int,
            l2 as int,
            r2 as int,
            buttons_1 as int,
            buttons_2 as int,
            buttons_3 as int,
        ),
{
    let b1 = report[buttons_1];
    let b2 = report[buttons_2];
    let b3 = report[buttons_3];
    assert(b1 & 0x0f == (b1 & 0x0f) & 0x0f) by (bit_vector);
    ControllerState {
        left_stick: StickState::new(report[left_x], report[left_y]),
        right_stick: StickState::new(report[right_x], report[right_y]),
        l2: report[l2],
        r2: report[r2],
        dpad: DpadDirection::from_hat(b1 & 0x0f),
        buttons: Buttons {
            square: b1 & 0x10 != 0,
            circle: b1 & 0x40 != 0,
            cross: b1 & 0x20 != 0,
            triangle: b1 & 0x80 != 0,
            l1: b2 & 0x01 != 0,
            r1: b2 & 0x02 != 0,
            l2_button: b2 & 0x04 != 0,
            r2_button: b2 & 0x08 != 0,
            create: b2 & 0x10 != 0,
            options: b2 & 0x20 != 0,
            l3: b2 & 0x40 != 0,
            r3: b2 & 0x80 != 0,
            ps: b3 & 0x01 != 0,
            touchpad: b3 & 0x02 != 0,
            mute: b3 & 0x04 != 0,
        },
    }
}

/// A USB DualSense report: id `0x01`, at least 11 bytes.
pub open spec fn spec_dualsense_usb(report: Seq<u8>) -> Option<ControllerState> {
    if report.len() < 11 || report[0] != 0x01 {
        None
    } else {
        Some(spec_common_layout(report, 1, 2, 3, 4, 5, 6, 8, 9, 10))
    }
}

/// A full Bluetooth DualSense report: id `0x31`, at least 12 bytes.
pub open spec fn spec_dualsense_bluetooth(report: Seq<u8>) -> Option<ControllerState> {
    if report.len() < 12 || report[0] != 0x31 {
        None
    } else {
        Some(spec_common_layout(report, 2, 3, 4, 5, 6, 7, 9, 10, 11))
    }
}

/// A compact Bluetooth DualSense report: id `0x01`, at least 10 bytes, with
/// the buttons before the triggers.
pub open spec fn spec_dualsense_compact_bluetooth(report: Seq<u8>) -> Option<ControllerState> {
    if report.len() < 10 || report[0] != 0x01 {
        None
    } else {
        Some(spec_common_layout(report, 1, 2, 3, 4, 8, 9, 5, 6, 7))
    }
}

pub open spec fn or_else(first: Option<ControllerState>, second: Option<ControllerState>) -> Option<
    ControllerState,
> {
    if first.is_some() {
        first
    } else {
        second
    }
}

/// A DualSense report read according to the connection mode: report `0x31`
/// is always the full Bluetooth layout; report `0x01` is tried in the layout
/// that the transport suggests first, then in the other one.
pub open spec fn spec_dualsense_report(
    connection_mode: ConnectionMode,
    report: Seq<u8>,
) -> Option<ControllerState> {
    if report.len() == 0 {
        None
    } else if report[0] == 0x31 {
        spec_dualsense_bluetooth(report)
    } else if report[0] == 0x01 {
        match connection_mode {
            ConnectionMode::Bluetooth => or_else(
                spec_dualsense_compact_bluetooth(report),
                spec_dualsense_usb(report),
            ),
            ConnectionMode::Usb => or_else(
                spec_dualsense_usb(report),
                spec_dualsense_compact_bluetooth(report),
            ),
            ConnectionMode::Unknown => if report.len() >= 64 {
                or_else(spec_dualsense_usb(report), spec_dualsense_compact_bluetooth(report))
            } else {
                or_else(spec_dualsense_compact_bluetooth(report), spec_dualsense_usb(report))
            },
        }
    } else {
        None
    }
}

fn parse_dualsense_usb_input_report(report: &[u8]) -> (r: Option<ControllerState>)
    ensures
        r == spec_dualsense_usb(report@),
{
    if report.len() < 11 || report[0] != 0x01 {
        return None;
    }
    Some(parse_common_layout(report, 1, 2, 3, 4, 5, 6, 8, 9, 10))
}

fn parse_dualsense_bluetooth_input_report(report: &[u8]) -> (r: Option<ControllerState>)
    ensures
        r == spec_dualsense_bluetooth(report@),
{
    if report.len() < 12 || report[0] != 0x31 {
        return None;
    }
    Some(parse_common_layout(report, 2, 3, 4, 5, 6, 7, 9, 10, 11))
}

fn parse_dualsense_compact_bluetooth_input_report(report: &[u8]) -> (r: Option<ControllerState>)
    ensures
        r == spec_dualsense_compact_bluetooth(report@),
{
    if report.len() < 10 || report[0] != 0x01 {
        return None;
    }
    Some(parse_common_layout(report, 1, 2, 3, 4, 8, 9, 5, 6, 7))
}

/// A DualSense report read according to the connection mode.
pub fn parse_dualsense_input_report(connection_mode: ConnectionMode, report: &[u8]) -> (r: Option<
    ControllerState,
>)
    ensures
        r == spec_dualsense_report(connection_mode, report@),
{
    if report.len() == 0 {
        return None;
    }
    if report[0] == 0x31 {
        return parse_dualsense_bluetooth_input_report(report);
    }
    if report[0] != 0x01 {
        return None;
    }
    let (first, second) = match connection_mode {
        ConnectionMode::Bluetooth => (
            parse_dualsense_compact_bluetooth_input_report(report),
            parse_dualsense_usb_input_report(report),
        ),
        ConnectionMode::Usb => (
            parse_dualsense_usb_input_report(report),
            parse_dualsense_compact_bluetooth_input_report(report),
        ),
        ConnectionMode::Unknown => {
            if report.len() >= 64 {
                (
                    parse_dualsense_usb_input_report(report),
                    parse_dualsense_compact_bluetooth_input_report(report),
                )
            } else {
                (
                    parse_dualsense_compact_bluetooth_input_report(report),
                    parse_dualsense_usb_input_report(report),
                )
            }
        },
    };
    if first.is_some() {
        first
    } else {
        second
    }
}

/// The 12-bit stick value packed in three bytes: the x axis is the low
/// twelve bits, the y axis the high twelve.
pub open spec fn spec_switch_axis_12(b0: u8, b1: u8, b2: u8, y_axis: bool) -> u16 {
    if y_axis {
        ((b1 as u16) >> 4u16) | ((b2 as u16) << 4u16)
    } else {
        (b0 as u16) | (((b1 as u16) & 0x0Fu16) << 8u16)
    }
}

/// The 12-bit stick value packed in three bytes; it always fits in twelve
/// bits.
fn decode_switch_axis_12(b0: u8, b1: u8, b2: u8, y_axis: bool) -> (r: Option<u16>)
    ensures
        r == Some(spec_switch_axis_12(b0, b1, b2, y_axis)),
        spec_switch_axis_12(b0, b1, b2, y_axis) <= 4095,
{
    let raw: u16 = if y_axis {
        ((b1 as u16) >> 4u16) | ((b2 as u16) << 4u16)
    } else {
        (b0 as u16) | (((b1 as u16) & 0x0Fu16) << 8u16)
    };
    assert(((b1 as u16) >> 4u16) | ((b2 as u16) << 4u16) <= 4095) by (bit_vector);
    assert((b0 as u16) | (((b1 as u16) & 0x0Fu16) << 8u16) <= 4095) by (bit_vector);
    if raw <= 4095 {
        Some(raw)
    } else {
        None
    }
}

/// A 12-bit axis value scaled to a byte, rounding to nearest.
pub open spec fn spec_scale_axis_12(raw: u16) -> u8 {
    ((raw * 255 + 2047) / 4095) as u8
}

/// A 12-bit axis value scaled to a byte, rounding to nearest.
pub fn scale_axis_12_to_byte(raw: u16) -> (r: u8)
    ensures
        r == spec_scale_axis_12(raw),
{
    let wide: u32 = raw as u32 * 255 + 2047;
    (wide / 4095) as u8
}

/// The byte axis turned upside down.
pub fn invert_switch_axis_byte(value: u8) -> (r: u8)
    ensures
        r == 255 - value,
{
    255 - value
}

/// A Switch Pro stick from its three packed bytes; the y axis is turned so
/// that up is low, as on the other controllers.
pub open spec fn spec_switch_stick(b0: u8, b1: u8, b2: u8) -> StickState {
    StickState {
        raw_x: spec_scale_axis_12(spec_switch_axis_12(b0, b1, b2, false)),
        raw_y: (255 - spec_scale_axis_12(spec_switch_axis_12(b0, b1, b2, true))) as u8,
    }
}

/// The Switch Pro buttons from the three button bytes.  Face buttons are
/// mapped by position: Nintendo's Y, X, B and A become square, triangle,
/// cross and circle.
pub open spec fn spec_switch_buttons(b1: u8, b2: u8, b3: u8) -> Buttons {
    Buttons {
        square: b1 & 0x01 != 0,
        circle: b1 & 0x08 != 0,
        cross: b1 & 0x04 != 0,
        triangle: b1 & 0x02 != 0,
        l1: b3 & 0x40 != 0,
        r1: b1 & 0x40 != 0,
        l2_button: b3 & 0x80 != 0,
        r2_button: b1 & 0x80 != 0,
        create: b2 & 0x01 != 0,
        options: b2 & 0x02 != 0,
        l3: b2 & 0x08 != 0,
        r3: b2 & 0x04 != 0,
        ps: b2 & 0x10 != 0,
        touchpad: b2 & 0x20 != 0,
        mute: false,
    }
}

/// A full Switch Pro input report (id `0x30` or `0x21`, at least 12 bytes).
pub open spec fn spec_switch_full_report(report: Seq<u8>) -> Option<ControllerState> {
    if report.len() < 12 || !(report[0] == 0x30 || report[0] == 0x21) {
        None
    } else {
        let b1 = report[3];
        let b2 = report[4];
        let b3 = report[5];
        Some(
            ControllerState {
                left_stick: spec_switch_stick(report[6], report[7], report[8]),
                right_stick: spec_switch_stick(report[9], report[10], report[11]),
                l2: if b3 & 0x80 != 0 {
                    255
                } else {
                    0
                },
                r2: if b1 & 0x80 != 0 {
                    255
                } else {
                    0
                },
                dpad: composed_direction(
                    b3 & 0x02 != 0,
                    b3 & 0x01 != 0,
                    b3 & 0x08 != 0,
                    b3 & 0x04 != 0,
                ),
                buttons: spec_switch_buttons(b1, b2, b3),
            },
        )
    }
}

fn switch_stick(b0: u8, b1: u8, b2: u8) -> (r: Option<StickState>)
    ensures
        r == Some(spec_switch_stick(b0, b1, b2)),
{
    let x = match decode_switch_axis_12(b0, b1, b2, false) {
        Some(v) => v,
        None => return None,
    };
    let y = match decode_switch_axis_12(b0, b1, b2, true) {
        Some(v) => v,
        None => return None,
    };
    Some(StickState::new(scale_axis_12_to_byte(x), invert_switch_axis_byte(scale_axis_12_to_byte(y))))
}

fn switch_buttons(b1: u8, b2: u8, b3: u8) -> (r: Buttons)
    ensures
        r == spec_switch_buttons(b1, b2, b3),
{
    Buttons {
        square: b1 & 0x01 != 0,
        circle: b1 & 0x08 != 0,
        cross: b1 & 0x04 != 0,
        triangle: b1 & 0x02 != 0,
        l1: b3 & 0x40 != 0,
        r1: b1 & 0x40 != 0,
        l2_button: b3 & 0x80 != 0,
        r2_button: b1 & 0x80 != 0,
        create: b2 & 0x01 != 0,
        options: b2 & 0x02 != 0,
        l3: b2 & 0x08 != 0,
        r3: b2 & 0x04 != 0,
        ps: b2 & 0x10 != 0,
        touchpad: b2 & 0x20 != 0,
        mute: false,
    }
}

/// A full Switch Pro input report.
pub fn parse_nintendo_switch_full_input_report(report: &[u8]) -> (r: Option<ControllerState>)
    ensures
        r == spec_switch_full_report(report@),
{
    if report.len() < 12 || !(report[0] == 0x30 || report[0] == 0x21) {
        return None;
    }
    let buttons_1 = report[3];
    let buttons_2 = report[4];
    let buttons_3 = report[5];
    let left_stick = match switch_stick(report[6], report[7], report[8]) {
        Some(s) => s,
        None => return None,
    };
    let right_stick = match switch_stick(report[9], report[10], report[11]) {
        Some(s) => s,
        None => return None,
    };
    Some(
        ControllerState {
            left_stick,
            right_stick,
            l2: if buttons_3 & 0x80 != 0 {
                255
            } else {
                0
            },
            r2: if buttons_1 & 0x80 != 0 {
                255
            } else {
                0
            },
            dpad: compose_dpad(
                buttons_3 & 0x02 != 0,
                buttons_3 & 0x01 != 0,
                buttons_3 & 0x08 != 0,
                buttons_3 & 0x04 != 0,
            ),
            buttons: switch_buttons(buttons_1, buttons_2, buttons_3),
        },
    )
}

/// The neutral rumble pattern sent with every Switch subcommand.
pub open spec fn switch_neutral_rumble() -> Seq<u8> {
    seq![0x00u8, 0x01u8, 0x40u8, 0x40u8, 0x00u8, 0x01u8, 0x40u8, 0x40u8]
}

/// A Switch Pro subcommand wrapped for USB: the USB header, the subcommand
/// report id, the packet counter (low four bits), the neutral rumble, the
/// subcommand and its payload.
pub open spec fn spec_switch_usb_subcommand_report(counter: u8, subcommand: u8, payload: Seq<u8>) -> Seq<u8> {
    seq![
        SWITCH_USB_REPORT_ID,
        SWITCH_USB_SUBCOMMAND_WRAPPER,
        0x00u8,
        SWITCH_USB_SUBCOMMAND_HEADER,
        0x00u8,
        0x00u8,
        0x00u8,
        0x00u8,
        SWITCH_SUBCOMMAND_REPORT_ID,
        counter & 0x0F,
    ] + switch_neutral_rumble() + seq![subcommand] + payload
}

/// A Switch Pro subcommand wrapped for USB.
pub fn build_switch_usb_subcommand_report(counter: u8, subcommand: u8, payload: &[u8]) -> (r: Vec<u8>)
    ensures
        r@ == spec_switch_usb_subcommand_report(counter, subcommand, payload@),
{
    let mut report: Vec<u8> = vec![
        SWITCH_USB_REPORT_ID,
        SWITCH_USB_SUBCOMMAND_WRAPPER,
        0x00,
        SWITCH_USB_SUBCOMMAND_HEADER,
        0x00,
        0x00,
        0x00,
        0x00,
        SWITCH_SUBCOMMAND_REPORT_ID,
        counter & 0x0F,
        0x00,
        0x01,
        0x40,
        0x40,
        0x00,
        0x01,
        0x40,
        0x40,
        subcommand,
    ];
    let ghost head = report@;
    let mut i: usize = 0;
    while i < payload.len()
        invariant
            i <= payload@.len(),
            report@ == head + payload@.subrange(0, i as int),
        decreases payload@.len() - i,
    {
        report.push(payload[i]);
        assert(payload@.subrange(0, i + 1) =~= payload@.subrange(0, i as int).push(payload@[i as int]));
        i = i + 1;
    }
    assert(payload@.subrange(0, i as int) =~= payload@);
    assert(head =~= seq![
        SWITCH_USB_REPORT_ID,
        SWITCH_USB_SUBCOMMAND_WRAPPER,
        0x00u8,
        SWITCH_USB_SUBCOMMAND_HEADER,
        0x00u8,
        0x00u8,
        0x00u8,
        0x00u8,
        SWITCH_SUBCOMMAND_REPORT_ID,
        counter & 0x0F,
    ] + switch_neutral_rumble() + seq![subcommand]);
    report
}

/// `report` extended with zero bytes to the Switch USB output size; longer
/// reports are left as they are.
pub open spec fn spec_pad_switch_usb_report(report: Seq<u8>) -> Seq<u8> {
    if report.len() < SWITCH_USB_OUTPUT_REPORT_LEN {
        report + Seq::new((SWITCH_USB_OUTPUT_REPORT_LEN - report.len()) as nat, |i: int| 0u8)
    } else {
        report
    }
}

/// `report` extended with zero bytes to the Switch USB output size.
pub fn pad_switch_usb_report(report: &[u8]) -> (r: Vec<u8>)
    ensures
        r@ == spec_pad_switch_usb_report(report@),
{
    let mut padded: Vec<u8> = Vec::new();
    let mut i: usize = 0;
    while i < report.len()
        invariant
            i <= report@.len(),
            padded@ == report@.subrange(0, i as int),
        decreases report@.len() - i,
    {
        padded.push(report[i]);
        assert(report@.subrange(0, i + 1) =~= report@.subrange(0, i as int).push(report@[i as int]));
        i = i + 1;
    }
    assert(report@.subrange(0, i as int) =~= report@);
    let ghost original = padded@;
    while padded.len() < SWITCH_USB_OUTPUT_REPORT_LEN
        invariant
            original == report@,
            padded@.len() >= report@.len(),
            padded@.len() <= SWITCH_USB_OUTPUT_REPORT_LEN || padded@ == report@,
            padded@ == report@ + Seq::new((padded@.len() - report@.len()) as nat, |i: int| 0u8),
        decreases SWITCH_USB_OUTPUT_REPORT_LEN - padded@.len(),
    {
        padded.push(0);
        assert(report@ + Seq::new((padded@.len() - report@.len()) as nat, |i: int| 0u8) =~= padded@);
    }
    assert(report@ + Seq::new(0, |i: int| 0u8) =~= report@);
    padded
}

/// The reports that switch a Switch Pro controller on USB to full input
/// reports, in the order they are sent; each is followed by a short settle
/// that drains the replies.
pub open spec fn spec_switch_pro_usb_init_reports() -> Seq<Seq<u8>> {
    seq![
        seq![SWITCH_USB_REPORT_ID, SWITCH_USB_DISABLE_TIMEOUT],
        seq![SWITCH_USB_REPORT_ID, SWITCH_USB_HANDSHAKE],
        seq![SWITCH_USB_REPORT_ID, SWITCH_USB_BAUD_RATE],
        seq![SWITCH_USB_REPORT_ID, SWITCH_USB_HANDSHAKE],
        seq![SWITCH_USB_REPORT_ID, SWITCH_USB_DISABLE_TIMEOUT],
        spec_switch_usb_subcommand_report(0, SWITCH_SUBCOMMAND_ACK_NOP, seq![]),
        spec_switch_usb_subcommand_report(
            1,
            SWITCH_SUBCOMMAND_SET_INPUT_REPORT_MODE,
            seq![SWITCH_INPUT_REPORT_MODE_FULL],
        ),
    ]
}

/// The reports that switch a Switch Pro controller on USB to full input
/// reports, in the order they are sent.
pub fn switch_pro_usb_init_reports() -> (r: Vec<Vec<u8>>)
    ensures
        r@.len() == spec_switch_pro_usb_init_reports().len(),
        forall|i: int| 0 <= i < r@.len() ==> r@[i]@ == spec_switch_pro_usb_init_reports()[i],
{
    let mut reports: Vec<Vec<u8>> = Vec::new();
    reports.push(vec![SWITCH_USB_REPORT_ID, SWITCH_USB_DISABLE_TIMEOUT]);
    reports.push(vec![SWITCH_USB_REPORT_ID, SWITCH_USB_HANDSHAKE]);
    reports.push(vec![SWITCH_USB_REPORT_ID, SWITCH_USB_BAUD_RATE]);
    reports.push(vec![SWITCH_USB_REPORT_ID, SWITCH_USB_HANDSHAKE]);
    reports.push(vec![SWITCH_USB_REPORT_ID, SWITCH_USB_DISABLE_TIMEOUT]);
    let mut counter: u8 = 0;
    let empty: Vec<u8> = Vec::new();
    reports.push(build_switch_usb_subcommand_report(counter, SWITCH_SUBCOMMAND_ACK_NOP, empty.as_slice()));
    counter = counter.wrapping_add(1);
    let mode = vec![SWITCH_INPUT_REPORT_MODE_FULL];
    reports.push(
        build_switch_usb_subcommand_report(
            counter,
            SWITCH_SUBCOMMAND_SET_INPUT_REPORT_MODE,
            mode.as_slice(),
        ),
    );
    assert(empty@ =~= seq![]);
    assert(mode@ =~= seq![SWITCH_INPUT_REPORT_MODE_FULL]);
    reports
}

/// Whether a device needs the Switch Pro USB start-up sequence before it
/// sends full input reports.
pub fn needs_switch_pro_usb_init(info: &InputDeviceInfo) -> (r: bool)
    ensures
        r == (info.backend == Some(InputBackend::NintendoSwitchPro) && (info.connection_mode
            == ConnectionMode::Usb || info.connection_mode == ConnectionMode::Unknown)),
{
    let is_switch = match info.backend {
        Some(InputBackend::NintendoSwitchPro) => true,
        _ => false,
    };
    let usb_like = match info.connection_mode {
        ConnectionMode::Usb | ConnectionMode::Unknown => true,
        ConnectionMode::Bluetooth => false,
    };
    is_switch && usb_like
}

/// A Switch Pro report: the full report layout, else the generic layout
/// from the device's descriptor.
pub open spec fn spec_switch_report(generic: GenericHidParser, report: Seq<u8>) -> Option<ControllerState> {
    match spec_switch_full_report(report) {
        Some(state) => Some(state),
        None => spec_parse_with(generic.layouts@, report, 0),
    }
}

/// A Switch Pro report: the full report layout, else the generic layout.
pub fn parse_nintendo_switch_input_report(
    connection_mode: ConnectionMode,
    generic: &GenericHidParser,
    report: &[u8],
) -> (r: Option<ControllerState>)
    requires
        spec_switch_full_report(report@) is Some || generic.spec_reads_readable(report@),
    ensures
        r == spec_switch_report(*generic, report@),
{
    if let Some(state) = parse_nintendo_switch_full_input_report(report) {
        return Some(state);
    }
    generic.parse(report)
}

/// How reports of an opened device are read.
#[derive(Clone, Debug)]
pub enum InputParser {
    SonyDualSense { connection_mode: ConnectionMode },
    NintendoSwitch { connection_mode: ConnectionMode, generic: GenericHidParser },
    Generic(GenericHidParser),
}

/// Why no parser could be made for a device.
#[derive(Clone, Copy, Debug, PartialEq, Eq)]
pub enum ParserBuildError {
    /// The device has no backend.
    MissingBackend,
    /// Its report descriptor gives no usable gamepad layout.
    Descriptor(GenericParserError),
}

/// Whether reading a device needs its HID report descriptor.
pub open spec fn spec_backend_needs_descriptor(backend: InputBackend) -> bool {
    !(backend == InputBackend::DualSense || backend == InputBackend::DualSenseEdge)
}

impl InputParser {
    /// Every field that reading `report` touches can be read: the fixed
    /// layouts always can, a generic parser only where its fields allow.
    pub open spec fn spec_reads_readable(&self, report: Seq<u8>) -> bool {
        match self {
            InputParser::SonyDualSense { .. } => true,
            InputParser::NintendoSwitch { generic, .. } => spec_switch_full_report(report) is Some
                || generic.spec_reads_readable(report),
            InputParser::Generic(generic) => generic.spec_reads_readable(report),
        }
    }

    /// Whether every field that reading `report` touches can be read.
    pub fn reads_readable(&self, report: &[u8]) -> (r: bool)
        ensures
            r == self.spec_reads_readable(report@),
    {
        match self {
            InputParser::SonyDualSense { .. } => true,
            InputParser::NintendoSwitch { generic, .. } => {
                parse_nintendo_switch_full_input_report(report).is_some()
                    || generic.reads_readable(report)
            },
            InputParser::Generic(generic) => generic.reads_readable(report),
        }
    }

    /// The controller state in an input report, if the report is one.
    pub open spec fn spec_parse_report(&self, report: Seq<u8>) -> Option<ControllerState> {
        match self {
            InputParser::SonyDualSense { connection_mode } => spec_dualsense_report(
                *connection_mode,
                report,
            ),
            InputParser::NintendoSwitch { generic, .. } => spec_switch_report(*generic, report),
            InputParser::Generic(generic) => spec_parse_with(generic.layouts@, report, 0),
        }
    }

    /// The controller state in an input report.  Every field that the
    /// reading touches must be one that can be read.
    pub fn parse_report(&self, report: &[u8]) -> (r: Option<ControllerState>)
        requires
            self.spec_reads_readable(report@),
        ensures
            r == self.spec_parse_report(report@),
    {
        match self {
            InputParser::SonyDualSense { connection_mode } => parse_dualsense_input_report(
                *connection_mode,
                report,
            ),
            InputParser::NintendoSwitch { connection_mode, generic } => {
                parse_nintendo_switch_input_report(*connection_mode, generic, report)
            },
            InputParser::Generic(parser) => parser.parse(report),
        }
    }

    /// Whether making a parser for the device needs its report descriptor;
    /// DualSense controllers are read by their fixed layouts.
    pub fn needs_descriptor(info: &InputDeviceInfo) -> (r: bool)
        ensures
            r == match info.backend {
                Some(b) => spec_backend_needs_descriptor(b),
                None => false,
            },
    {
        match info.backend {
            Some(InputBackend::DualSense) | Some(InputBackend::DualSenseEdge) => false,
            Some(_) => true,
            None => false,
        }
    }

    /// The parser for an opened device; `descriptor` is its HID report
    /// descriptor when [`InputParser::needs_descriptor`] says it is needed.
    pub fn for_device(info: &InputDeviceInfo, descriptor: &[u8]) -> (r: Result<InputParser, ParserBuildError>)
        ensures
            match info.backend {
                None => r == Err::<InputParser, ParserBuildError>(ParserBuildError::MissingBackend),
                Some(InputBackend::DualSense) | Some(InputBackend::DualSenseEdge) => r == Ok::<
                    InputParser,
                    ParserBuildError,
                >(InputParser::SonyDualSense { connection_mode: info.connection_mode }),
                Some(InputBackend::NintendoSwitchPro) => exists|
                    g: Result<GenericHidParser, GenericParserError>,
                |
                    descriptor_parser_outcome(descriptor@, g) && r == match g {
                        Ok(generic) => Ok::<InputParser, ParserBuildError>(
                            InputParser::NintendoSwitch {
                                connection_mode: info.connection_mode,
                                generic,
                            },
                        ),
                        Err(e) => Err(ParserBuildError::Descriptor(e)),
                    },
                Some(_) => exists|g: Result<GenericHidParser, GenericParserError>|
                    descriptor_parser_outcome(descriptor@, g) && r == match g {
                        Ok(generic) => Ok::<InputParser, ParserBuildError>(
                            InputParser::Generic(generic),
                        ),
                        Err(e) => Err(ParserBuildError::Descriptor(e)),
                    },
            },
    {
        let backend = match info.backend {
            Some(b) => b,
            None => return Err(ParserBuildError::MissingBackend),
        };
        match backend {
            InputBackend::DualSense | InputBackend::DualSenseEdge => Ok(
                InputParser::SonyDualSense { connection_mode: info.connection_mode },
            ),
            InputBackend::NintendoSwitchPro => {
                let g = GenericHidParser::from_descriptor(descriptor);
                let r = match g {
                    Ok(generic) => Ok(
                        InputParser::NintendoSwitch { connection_mode: info.connection_mode, generic },
                    ),
                    Err(e) => Err(ParserBuildError::Descriptor(e)),
                };
                assert(descriptor_parser_outcome(descriptor@, g));
                r
            },
            InputBackend::DualShock4
            | InputBackend::DualShock4V2
            | InputBackend::GenericGamepad
            | InputBackend::GenericJoystick => {
                let g = GenericHidParser::from_descriptor(descriptor);
                let r = match g {
                    Ok(generic) => Ok(InputParser::Generic(generic)),
                    Err(e) => Err(ParserBuildError::Descriptor(e)),
                };
                assert(descriptor_parser_outcome(descriptor@, g));
                r
            },
        }
    }
}


/// A USB DualSense report (id `0x01`, at least 11 bytes) read over USB: sticks
/// in bytes 1 to 4, triggers in bytes 5 and 6, the hat and face buttons in
/// byte 8 (Square `0x10`, Cross `0x20`, Circle `0x40`, Triangle `0x80`),
/// L1 `0x01`, R1 `0x02`, L2 `0x04`, R2 `0x08`, Create `0x10`, Options
/// `0x20`, L3 `0x40`, R3 `0x80` in byte 9, and PS `0x01`, Touchpad `0x02`,
/// Mute `0x04` in byte 10.
pub proof fn lemma_dualsense_usb_layout(report: Seq<u8>)
    requires
        report.len() >= 11,
        report[0] == 0x01,
    ensures
        spec_dualsense_report(ConnectionMode::Usb, report) matches Some(s) && {
            &&& s.left_stick.raw_x == report[1]
            &&& s.left_stick.raw_y == report[2]
            &&& s.right_stick.raw_x == report[3]
            &&& s.right_stick.raw_y == report[4]
            &&& s.l2 == report[5]
            &&& s.r2 == report[6]
            &&& s.dpad == hat_direction((report[8] & 0x0f) as int)
            &&& s.buttons.square == (report[8] & 0x10 != 0)
            &&& s.buttons.circle == (report[8] & 0x40 != 0)
            &&& s.buttons.cross == (report[8] & 0x20 != 0)
            &&& s.buttons.triangle == (report[8] & 0x80 != 0)
            &&& s.buttons.l1 == (report[9] & 0x01 != 0)
            &&& s.buttons.r1 == (report[9] & 0x02 != 0)
            &&& s.buttons.l2_button == (report[9] & 0x04 != 0)
            &&& s.buttons.r2_button == (report[9] & 0x08 != 0)
            &&& s.buttons.create == (report[9] & 0x10 != 0)
            &&& s.buttons.options == (report[9] & 0x20 != 0)
            &&& s.buttons.l3 == (report[9] & 0x40 != 0)
            &&& s.buttons.r3 == (report[9] & 0x80 != 0)
            &&& s.buttons.ps == (report[10] & 0x01 != 0)
            &&& s.buttons.touchpad == (report[10] & 0x02 != 0)
            &&& s.buttons.mute == (report[10] & 0x04 != 0)
        },
{
}

/// A full Bluetooth DualSense report (id `0x31`, at least 12 bytes), in any
/// connection mode: the USB layout one byte later.
pub proof fn lemma_dualsense_bluetooth_layout(report: Seq<u8>, mode: ConnectionMode)
    requires
        report.len() >= 12,
        report[0] == 0x31,
    ensures
        spec_dualsense_report(mode, report) matches Some(s) && {
            &&& s.left_stick.raw_x == report[2]
            &&& s.left_stick.raw_y == report[3]
            &&& s.right_stick.raw_x == report[4]
            &&& s.right_stick.raw_y == report[5]
            &&& s.l2 == report[6]
            &&& s.r2 == report[7]
            &&& s.dpad == hat_direction((report[9] & 0x0f) as int)
            &&& s.buttons.square == (report[9] & 0x10 != 0)
            &&& s.buttons.circle == (report[9] & 0x40 != 0)
            &&& s.buttons.cross == (report[9] & 0x20 != 0)
            &&& s.buttons.triangle == (report[9] & 0x80 != 0)
            &&& s.buttons.l1 == (report[10] & 0x01 != 0)
            &&& s.buttons.r1 == (report[10] & 0x02 != 0)
            &&& s.buttons.l2_button == (report[10] & 0x04 != 0)
            &&& s.buttons.r2_button == (report[10] & 0x08 != 0)
            &&& s.buttons.create == (report[10] & 0x10 != 0)
            &&& s.buttons.options == (report[10] & 0x20 != 0)
            &&& s.buttons.l3 == (report[10] & 0x40 != 0)
            &&& s.buttons.r3 == (report[10] & 0x80 != 0)
            &&& s.buttons.ps == (report[11] & 0x01 != 0)
            &&& s.buttons.touchpad == (report[11] & 0x02 != 0)
            &&& s.buttons.mute == (report[11] & 0x04 != 0)
        },
{
}

/// A compact Bluetooth DualSense report (id `0x01`, at least 10 bytes) read
/// over Bluetooth: sticks in bytes 1 to 4, the button bytes 5 to 7 with the
/// bits of the USB layout, triggers in bytes 8 and 9.
pub proof fn lemma_dualsense_compact_layout(report: Seq<u8>)
    requires
        report.len() >= 10,
        report[0] == 0x01,
    ensures
        spec_dualsense_report(ConnectionMode::Bluetooth, report) matches Some(s) && {
            &&& s.left_stick.raw_x == report[1]
            &&& s.left_stick.raw_y == report[2]
            &&& s.right_stick.raw_x == report[3]
            &&& s.right_stick.raw_y == report[4]
            &&& s.l2 == report[8]
            &&& s.r2 == report[9]
            &&& s.dpad == hat_direction((report[5] & 0x0f) as int)
            &&& s.buttons.square == (report[5] & 0x10 != 0)
            &&& s.buttons.circle == (report[5] & 0x40 != 0)
            &&& s.buttons.cross == (report[5] & 0x20 != 0)
            &&& s.buttons.triangle == (report[5] & 0x80 != 0)
            &&& s.buttons.l1 == (report[6] & 0x01 != 0)
            &&& s.buttons.r1 == (report[6] & 0x02 != 0)
            &&& s.buttons.l2_button == (report[6] & 0x04 != 0)
            &&& s.buttons.r2_button == (report[6] & 0x08 != 0)
            &&& s.buttons.create == (report[6] & 0x10 != 0)
            &&& s.buttons.options == (report[6] & 0x20 != 0)
            &&& s.buttons.l3 == (report[6] & 0x40 != 0)
            &&& s.buttons.r3 == (report[6] & 0x80 != 0)
            &&& s.buttons.ps == (report[7] & 0x01 != 0)
            &&& s.buttons.touchpad == (report[7] & 0x02 != 0)
            &&& s.buttons.mute == (report[7] & 0x04 != 0)
        },
{
}

/// A full Switch Pro report (id `0x30` or `0x21`, at least 12 bytes): in
/// byte 3 Y `0x01` (Square), X `0x02` (Triangle), B `0x04` (Cross), A `0x08`
/// (Circle), R `0x40` (R1), ZR `0x80` (R2, full right trigger); in byte 4
/// Minus `0x01` (Create), Plus `0x02` (Options), right stick click `0x04`,
/// left stick click `0x08`, Home `0x10` (PS), Capture `0x20` (Touchpad); in
/// byte 5 the d-pad (down `0x01`, up `0x02`, right `0x04`, left `0x08`),
/// L `0x40` (L1) and ZL `0x80` (L2, full left trigger); no Mute.
pub proof fn lemma_switch_full_report_layout(report: Seq<u8>)
    requires
        report.len() >= 12,
        report[0] == 0x30 || report[0] == 0x21,
    ensures
        spec_switch_full_report(report) matches Some(s) && {
            &&& s.buttons.square == (report[3] & 0x01 != 0)
            &&& s.buttons.triangle == (report[3] & 0x02 != 0)
            &&& s.buttons.cross == (report[3] & 0x04 != 0)
            &&& s.buttons.circle == (report[3] & 0x08 != 0)
            &&& s.buttons.r1 == (report[3] & 0x40 != 0)
            &&& s.buttons.r2_button == (report[3] & 0x80 != 0)
            &&& s.buttons.create == (report[4] & 0x01 != 0)
            &&& s.buttons.options == (report[4] & 0x02 != 0)
            &&& s.buttons.r3 == (report[4] & 0x04 != 0)
            &&& s.buttons.l3 == (report[4] & 0x08 != 0)
            &&& s.buttons.ps == (report[4] & 0x10 != 0)
            &&& s.buttons.touchpad == (report[4] & 0x20 != 0)
            &&& s.buttons.l1 == (report[5] & 0x40 != 0)
            &&& s.buttons.l2_button == (report[5] & 0x80 != 0)
            &&& !s.buttons.mute
            &&& s.l2 == (if report[5] & 0x80 != 0 { 255u8 } else { 0u8 })
            &&& s.r2 == (if report[3] & 0x80 != 0 { 255u8 } else { 0u8 })
            &&& s.dpad == composed_direction(
                report[5] & 0x02 != 0,
                report[5] & 0x01 != 0,
                report[5] & 0x08 != 0,
                report[5] & 0x04 != 0,
            )
        },
{
}

} // verus!

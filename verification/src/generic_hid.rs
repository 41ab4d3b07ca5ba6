//! Reading gamepads from their HID report descriptor: picking the axes,
//! triggers, hat switch and buttons of an input report, and decoding input
//! reports with the picked layout.
use vstd::prelude::*;
use crate::assist::{
    Buttons, ControllerState, DpadDirection, StickState, compose_dpad, composed_direction,
    hat_direction,
};
use hidparser::report_descriptor_parser::ReportDescriptorError;
use hidparser::{ReportField, VariableField, parse_report_descriptor};
use hidparser::report_data_types::{LogicalMaximum, LogicalMinimum};

verus! {

#[verifier::external_type_specification]
#[verifier::external_body]
pub struct ExReportDescriptorError(ReportDescriptorError);

/// A variable field of a HID report: its 32-bit usage (page in the high half,
/// id in the low half), the bits it occupies and its logical range.
#[derive(Clone, Copy, Debug, PartialEq, Eq, Structural)]
pub struct HidField {
    pub usage: u32,
    pub bit_start: u32,
    pub bit_end: u32,
    pub logical_minimum: i32,
    pub logical_maximum: i32,
}

/// A field of a HID report: a variable field, or an array or padding field,
/// which gamepad layouts do not use.
#[derive(Clone, Copy, Debug, PartialEq, Eq, Structural)]
pub enum HidReportField {
    Variable(HidField),
    Other,
}

/// An input report of a HID report descriptor.
#[derive(Clone, Debug, PartialEq, Eq)]
pub struct HidReport {
    pub report_id: Option<u32>,
    pub size_in_bits: usize,
    pub fields: Vec<HidReportField>,
}

/// The input reports that the HID descriptor parser finds in `descriptor`,
/// or `None` when it rejects the descriptor.
pub uninterp spec fn descriptor_input_reports(descriptor: Seq<u8>) -> Option<Seq<HidReport>>;

/// Bit `i` of a payload, counting from the low bit of its first byte.
pub open spec fn payload_bit(payload: Seq<u8>, i: int) -> int {
    (payload[i / 8] as int / vstd::arithmetic::power2::pow2((i % 8) as nat) as int) % 2
}

/// The unsigned little-endian value of the `n` payload bits from `start` on.
pub open spec fn bits_value(payload: Seq<u8>, start: int, n: nat) -> int
    decreases n,
{
    if n == 0 {
        0
    } else {
        bits_value(payload, start, (n - 1) as nat) + payload_bit(payload, start + n - 1)
            * vstd::arithmetic::power2::pow2((n - 1) as nat) as int
    }
}

/// The value that the HID descriptor parser reads for a variable field with
/// these bits and logical range from a report payload: `None` when the
/// payload does not reach the field's last byte; else the field's bits as a
/// little-endian number, sign-extended from its top bit when the logical
/// minimum is negative and otherwise read as a 64-bit signed integer;
/// `None` again when that value lies outside the logical range, whose
/// maximum is read unsigned when the minimum is not negative.
#[verifier::opaque]
pub open spec fn hid_field_value(
    bit_start: u32,
    bit_end: u32,
    logical_minimum: i32,
    logical_maximum: i32,
    payload: Seq<u8>,
) -> Option<i64> {
    let n: nat = if bit_end > bit_start {
        (bit_end - bit_start) as nat
    } else {
        0
    };
    if (bit_end + 7) / 8 > payload.len() {
        None
    } else {
        let raw = bits_value(payload, bit_start as int, n);
        let value = if logical_minimum < 0 && n > 0 && payload_bit(
            payload,
            bit_start + n - 1,
        ) == 1 {
            raw - vstd::arithmetic::power2::pow2(n) as int
        } else if raw >= 0x8000_0000_0000_0000 {
            raw - 0x1_0000_0000_0000_0000
        } else {
            raw
        };
        let max: int = if logical_minimum < 0 || logical_maximum >= 0 {
            logical_maximum as int
        } else {
            logical_maximum as int + 0x1_0000_0000
        };
        if value < logical_minimum || value > max {
            None
        } else {
            Some(value as i64)
        }
    }
}

/// Parses a HID report descriptor with `hidparser::parse_report_descriptor`
/// and keeps its input reports.  The contract only names the result: the
/// parser's output on given bytes is not restated here.  The parser adds up
/// each report's bit positions in `u32` (report count times report size, and
/// each field's end); the descriptor is required to be within
/// [`descriptor_within_limits`], so that none of those sums overflows.
/// Running out of memory on a descriptor that describes a vast number of
/// fields or deeply nested collections is not excluded.
#[verifier::external_body]
fn parse_input_reports(descriptor: &[u8]) -> (r: Result<Vec<HidReport>, ReportDescriptorError>)
    requires
        descriptor_within_limits(descriptor@),
    ensures
        match r {
            Ok(reports) => descriptor_input_reports(descriptor@) == Some(reports@),
            Err(_) => descriptor_input_reports(descriptor@).is_none(),
        },
{
    let parsed = parse_report_descriptor(descriptor)?;
    Ok(parsed.input_reports.iter().map(|report| HidReport {
        report_id: report.report_id.map(u32::from),
        size_in_bits: report.size_in_bits,
        fields: report.fields.iter().map(|field| match field {
            ReportField::Variable(v) => HidReportField::Variable(HidField { usage: u32::from(v.usage),
                bit_start: v.bits.start, bit_end: v.bits.end, logical_minimum: i32::from(v.logical_minimum),
                logical_maximum: i32::from(v.logical_maximum) }),
            _ => HidReportField::Other,
        }).collect(),
    }).collect())
}

/// Bit positions of a report must stay below this bound.
pub const DESCRIPTOR_BIT_LIMIT: u64 = 0x1_0000_0000;

/// The little-endian value of the `size` data bytes of a short item that
/// start at `start` (a short item has 0, 1, 2 or 4 data bytes).
pub open spec fn item_value(d: Seq<u8>, start: int, size: int) -> int {
    if size == 0 {
        0
    } else if size == 1 {
        d[start] as int
    } else if size == 2 {
        d[start] + 256 * d[start + 1]
    } else {
        d[start] + 256 * d[start + 1] + 65536 * d[start + 2] + 16777216 * d[start + 3]
    }
}

/// The number of data bytes of a short item with header `h`.
pub open spec fn short_item_size(h: u8) -> int {
    if h % 4 == 3 {
        4
    } else {
        (h % 4) as int
    }
}

/// An item whose header alone makes the descriptor parser stop with an
/// error: a reserved or long item, a main item other than Input, Output,
/// Collection, Feature and End Collection, an unknown global item, a Usage
/// Page with four data bytes, and an unknown or Delimiter local item.
pub open spec fn item_refused(h: u8) -> bool {
    let kind = (h / 4) % 4;
    let tag = h / 16;
    ||| kind == 3
    ||| kind == 0 && (tag < 8 || tag > 12)
    ||| kind == 1 && (tag > 11 || tag == 0 && h % 4 == 3)
    ||| kind == 2 && (tag == 6 || tag > 9)
}

/// Whether a main item with header `h` describes fields of a report: an
/// Input, Output or Feature item.
pub open spec fn item_has_fields(h: u8) -> bool {
    let tag = h / 16;
    (h / 4) % 4 == 0 && (tag == 8 || tag == 9 || tag == 11)
}

/// Reading a descriptor's items from `pos` on, with the Report Size and
/// Report Count in force and the bits counted so far: the bits that all the
/// Input, Output and Feature items describe, each its Report Count times
/// its Report Size (zero where either was never given).  Reading stops at
/// an item that the descriptor parser refuses or that the end cuts short,
/// where the parser stops with an error.
pub open spec fn descriptor_bits(d: Seq<u8>, pos: int, size: int, count: int, total: int) -> int
    decreases d.len() - pos,
{
    if pos < 0 || pos >= d.len() || item_refused(d[pos]) || pos + 1 + short_item_size(d[pos])
        > d.len() {
        total
    } else {
        let h = d[pos];
        let n = short_item_size(h);
        let kind = (h / 4) % 4;
        let tag = h / 16;
        let value = item_value(d, pos + 1, n);
        let s = if kind == 1 && tag == 7 {
            value
        } else {
            size
        };
        let c = if kind == 1 && tag == 9 {
            value
        } else {
            count
        };
        let t = if item_has_fields(h) {
            total + c * s
        } else {
            total
        };
        descriptor_bits(d, pos + 1 + n, s, c, t)
    }
}

/// The descriptor is small enough for the descriptor parser: all its
/// reports together describe fewer than [`DESCRIPTOR_BIT_LIMIT`] bits, so
/// no report's bit positions overflow 32 bits.
pub open spec fn descriptor_within_limits(d: Seq<u8>) -> bool {
    descriptor_bits(d, 0, 0, 0, 0) < DESCRIPTOR_BIT_LIMIT
}

proof fn lemma_descriptor_bits_grow(d: Seq<u8>, pos: int, size: int, count: int, total: int)
    requires
        size >= 0,
        count >= 0,
    ensures
        descriptor_bits(d, pos, size, count, total) >= total,
    decreases d.len() - pos,
{
    if pos < 0 || pos >= d.len() || item_refused(d[pos]) || pos + 1 + short_item_size(d[pos])
        > d.len() {
    } else {
        let h = d[pos];
        let n = short_item_size(h);
        let kind = (h / 4) % 4;
        let tag = h / 16;
        let value = item_value(d, pos + 1, n);
        let s = if kind == 1 && tag == 7 {
            value
        } else {
            size
        };
        let c = if kind == 1 && tag == 9 {
            value
        } else {
            count
        };
        assert(value >= 0);
        assert(c * s >= 0) by (nonlinear_arith)
            requires
                c >= 0,
                s >= 0,
        ;
        let t = if item_has_fields(h) {
            total + c * s
        } else {
            total
        };
        lemma_descriptor_bits_grow(d, pos + 1 + n, s, c, t);
    }
}

fn item_value_exec(d: &[u8], start: usize, size: usize) -> (r: u64)
    requires
        size == 0 || size == 1 || size == 2 || size == 4,
        start + size <= d@.len(),
    ensures
        r == item_value(d@, start as int, size as int),
        r < 0x1_0000_0000,
{
    if size == 0 {
        0
    } else if size == 1 {
        d[start] as u64
    } else if size == 2 {
        d[start] as u64 + 256 * (d[start + 1] as u64)
    } else {
        d[start] as u64 + 256 * (d[start + 1] as u64) + 65536 * (d[start + 2] as u64) + 16777216
            * (d[start + 3] as u64)
    }
}

fn item_refused_exec(h: u8) -> (r: bool)
    ensures
        r == item_refused(h),
{
    let kind = (h / 4) % 4;
    let tag = h / 16;
    kind == 3 || kind == 0 && (tag < 8 || tag > 12) || kind == 1 && (tag > 11 || tag == 0 && h % 4
        == 3) || kind == 2 && (tag == 6 || tag > 9)
}

/// Whether the descriptor is within [`descriptor_within_limits`].
pub fn check_descriptor_limits(d: &[u8]) -> (r: bool)
    ensures
        r == descriptor_within_limits(d@),
{
    let mut pos: usize = 0;
    let mut size: u64 = 0;
    let mut count: u64 = 0;
    let mut total: u64 = 0;
    while pos < d.len()
        invariant
            pos <= d@.len(),
            size < 0x1_0000_0000,
            count < 0x1_0000_0000,
            total < DESCRIPTOR_BIT_LIMIT,
            descriptor_bits(d@, 0, 0, 0, 0) == descriptor_bits(
                d@,
                pos as int,
                size as int,
                count as int,
                total as int,
            ),
        decreases d@.len() - pos,
    {
        let h = d[pos];
        let n: usize = if h % 4 == 3 {
            4
        } else {
            (h % 4) as usize
        };
        if item_refused_exec(h) || n + 1 > d.len() - pos {
            pos = d.len();
        } else {
            let kind = (h / 4) % 4;
            let tag = h / 16;
            let value = item_value_exec(d, pos + 1, n);
            if kind == 1 && tag == 7 {
                size = value;
            }
            if kind == 1 && tag == 9 {
                count = value;
            }
            if kind == 0 && (tag == 8 || tag == 9 || tag == 11) {
                assert(count * size < 0x1_0000_0000 * 0x1_0000_0000) by (nonlinear_arith)
                    requires
                        count < 0x1_0000_0000,
                        size < 0x1_0000_0000,
                ;
                let bits = count * size;
                if bits >= DESCRIPTOR_BIT_LIMIT || total + bits >= DESCRIPTOR_BIT_LIMIT {
                    proof {
                        lemma_descriptor_bits_grow(
                            d@,
                            pos + 1 + n,
                            size as int,
                            count as int,
                            total + bits,
                        );
                    }
                    return false;
                }
                total = total + bits;
            }
            pos = pos + 1 + n;
        }
    }
    total < DESCRIPTOR_BIT_LIMIT
}

/// Reads a field's value from a payload with `hidparser::VariableField::field_value`.
/// The contract states the result as [`hid_field_value`]: the field's bits
/// gathered little-endian, sign-extended when the logical minimum is
/// negative, and checked against the logical range.  The field is required
/// to be one the parser can read without panicking: at most 64 bits, and not
/// empty when the logical minimum is negative.
#[verifier::external_body]
fn field_value(field: &HidField, payload: &[u8]) -> (r: Option<i64>)
    requires
        field.spec_readable(),
    ensures
        r == hid_field_value(
            field.bit_start,
            field.bit_end,
            field.logical_minimum,
            field.logical_maximum,
            payload@,
        ),
{
    let variable = VariableField { bits: field.bit_start..field.bit_end,
        logical_minimum: LogicalMinimum::from(field.logical_minimum),
        logical_maximum: LogicalMaximum::from(field.logical_maximum), ..VariableField::default() };
    variable.field_value(payload)
}

impl HidField {
    /// The usage page (the high half of the usage).
    pub open spec fn spec_page(self) -> u16 {
        (self.usage >> 16u32) as u16
    }

    /// The usage id (the low half of the usage).
    pub open spec fn spec_id(self) -> u16 {
        (self.usage & 0xFFFFu32) as u16
    }

    /// The logical maximum: signed when the minimum is negative, else the same
    /// 32 bits read as unsigned.
    pub open spec fn spec_logical_max(self) -> int {
        if self.logical_minimum < 0 || self.logical_maximum >= 0 {
            self.logical_maximum as int
        } else {
            self.logical_maximum as int + 0x1_0000_0000
        }
    }

    /// The field can be read: it spans at most 64 bits, and at least one when
    /// its values are signed.
    pub open spec fn spec_readable(self) -> bool {
        (self.bit_end > self.bit_start ==> self.bit_end - self.bit_start <= 64) && (
        self.logical_minimum < 0 ==> self.bit_end > self.bit_start)
    }

    /// Whether the field's range suits a trigger: non-negative and not empty.
    pub open spec fn spec_trigger_axis(self) -> bool {
        self.logical_minimum >= 0 && self.spec_logical_max() > self.logical_minimum
    }

    pub fn page(&self) -> (r: u16)
        ensures
            r == self.spec_page(),
    {
        (self.usage >> 16u32) as u16
    }

    pub fn id(&self) -> (r: u16)
        ensures
            r == self.spec_id(),
    {
        (self.usage & 0xFFFFu32) as u16
    }

    pub fn readable(&self) -> (r: bool)
        ensures
            r == self.spec_readable(),
    {
        (self.bit_end <= self.bit_start || self.bit_end - self.bit_start <= 64) && (
        self.logical_minimum >= 0 || self.bit_end > self.bit_start)
    }

    fn logical_max(&self) -> (r: i64)
        ensures
            r == self.spec_logical_max(),
    {
        if self.logical_minimum < 0 || self.logical_maximum >= 0 {
            self.logical_maximum as i64
        } else {
            self.logical_maximum as i64 + 0x1_0000_0000
        }
    }
}

/// A logical button a generic HID button can feed.
#[derive(Clone, Copy, Debug, PartialEq, Eq, Structural)]
pub enum GenericButtonKind {
    Square,
    Circle,
    Cross,
    Triangle,
    L1,
    R1,
    L2Button,
    R2Button,
    Create,
    Options,
    L3,
    R3,
    Ps,
    Touchpad,
    Mute,
}

/// The logical button of a HID button usage: buttons 1 to 15 in the common
/// gamepad order.
pub open spec fn spec_button_kind_for_usage(usage_id: u16) -> Option<GenericButtonKind> {
    if usage_id == 1 {
        Some(GenericButtonKind::Cross)
    } else if usage_id == 2 {
        Some(GenericButtonKind::Circle)
    } else if usage_id == 3 {
        Some(GenericButtonKind::Square)
    } else if usage_id == 4 {
        Some(GenericButtonKind::Triangle)
    } else if usage_id == 5 {
        Some(GenericButtonKind::L1)
    } else if usage_id == 6 {
        Some(GenericButtonKind::R1)
    } else if usage_id == 7 {
        Some(GenericButtonKind::L2Button)
    } else if usage_id == 8 {
        Some(GenericButtonKind::R2Button)
    } else if usage_id == 9 {
        Some(GenericButtonKind::Create)
    } else if usage_id == 10 {
        Some(GenericButtonKind::Options)
    } else if usage_id == 11 {
        Some(GenericButtonKind::L3)
    } else if usage_id == 12 {
        Some(GenericButtonKind::R3)
    } else if usage_id == 13 {
        Some(GenericButtonKind::Ps)
    } else if usage_id == 14 {
        Some(GenericButtonKind::Touchpad)
    } else if usage_id == 15 {
        Some(GenericButtonKind::Mute)
    } else {
        None
    }
}

/// The logical button of a HID button usage.
pub fn generic_button_kind_for_usage(usage_id: u16) -> (r: Option<GenericButtonKind>)
    ensures
        r == spec_button_kind_for_usage(usage_id),
{
    if usage_id == 1 {
        Some(GenericButtonKind::Cross)
    } else if usage_id == 2 {
        Some(GenericButtonKind::Circle)
    } else if usage_id == 3 {
        Some(GenericButtonKind::Square)
    } else if usage_id == 4 {
        Some(GenericButtonKind::Triangle)
    } else if usage_id == 5 {
        Some(GenericButtonKind::L1)
    } else if usage_id == 6 {
        Some(GenericButtonKind::R1)
    } else if usage_id == 7 {
        Some(GenericButtonKind::L2Button)
    } else if usage_id == 8 {
        Some(GenericButtonKind::R2Button)
    } else if usage_id == 9 {
        Some(GenericButtonKind::Create)
    } else if usage_id == 10 {
        Some(GenericButtonKind::Options)
    } else if usage_id == 11 {
        Some(GenericButtonKind::L3)
    } else if usage_id == 12 {
        Some(GenericButtonKind::R3)
    } else if usage_id == 13 {
        Some(GenericButtonKind::Ps)
    } else if usage_id == 14 {
        Some(GenericButtonKind::Touchpad)
    } else if usage_id == 15 {
        Some(GenericButtonKind::Mute)
    } else {
        None
    }
}

/// A HID button field and the logical button it feeds.
#[derive(Clone, Copy, Debug, PartialEq, Eq, Structural)]
pub struct ButtonBinding {
    pub kind: GenericButtonKind,
    pub field: HidField,
}

/// Digital d-pad switches of a report, where it has them.
#[derive(Clone, Copy, Debug, PartialEq, Eq, Structural)]
pub struct DpadButtonFields {
    pub up: Option<HidField>,
    pub down: Option<HidField>,
    pub left: Option<HidField>,
    pub right: Option<HidField>,
}

/// The first variable field among the first `n` fields with the given usage.
pub open spec fn first_usage_in(fields: Seq<HidReportField>, page: u16, id: u16, n: int) -> Option<
    HidField,
>
    decreases n,
{
    if n <= 0 {
        None
    } else {
        match first_usage_in(fields, page, id, n - 1) {
            Some(f) => Some(f),
            None => match fields[n - 1] {
                HidReportField::Variable(v) => if v.spec_page() == page && v.spec_id() == id {
                    Some(v)
                } else {
                    None
                },
                HidReportField::Other => None,
            },
        }
    }
}

/// The first variable field with the given usage.
pub open spec fn first_usage(fields: Seq<HidReportField>, page: u16, id: u16) -> Option<HidField> {
    first_usage_in(fields, page, id, fields.len() as int)
}

/// The variable fields among the first `n` fields with the given usage, in
/// order.
pub open spec fn usage_fields_in(fields: Seq<HidReportField>, page: u16, id: u16, n: int) -> Seq<
    HidField,
>
    decreases n,
{
    if n <= 0 {
        Seq::empty()
    } else {
        let before = usage_fields_in(fields, page, id, n - 1);
        match fields[n - 1] {
            HidReportField::Variable(v) => if v.spec_page() == page && v.spec_id() == id {
                before.push(v)
            } else {
                before
            },
            HidReportField::Other => before,
        }
    }
}

/// The variable fields with the given usage, in order.
pub open spec fn usage_fields(fields: Seq<HidReportField>, page: u16, id: u16) -> Seq<HidField> {
    usage_fields_in(fields, page, id, fields.len() as int)
}

/// The button bindings among the first `n` fields: every variable field on
/// the button page whose usage names a logical button.
pub open spec fn bindings_in(fields: Seq<HidReportField>, n: int) -> Seq<ButtonBinding>
    decreases n,
{
    if n <= 0 {
        Seq::empty()
    } else {
        let before = bindings_in(fields, n - 1);
        match fields[n - 1] {
            HidReportField::Variable(v) => if v.spec_page() == 0x09 {
                match spec_button_kind_for_usage(v.spec_id()) {
                    Some(kind) => before.push(ButtonBinding { kind, field: v }),
                    None => before,
                }
            } else {
                before
            },
            HidReportField::Other => before,
        }
    }
}

/// The button bindings of a report's fields, in order.
pub open spec fn bindings(fields: Seq<HidReportField>) -> Seq<ButtonBinding> {
    bindings_in(fields, fields.len() as int)
}

fn first_with_usage(fields: &Vec<HidReportField>, page: u16, id: u16) -> (r: Option<HidField>)
    ensures
        r == first_usage(fields@, page, id),
{
    let mut found: Option<HidField> = None;
    let mut i: usize = 0;
    while i < fields.len()
        invariant
            i <= fields@.len(),
            found == first_usage_in(fields@, page, id, i as int),
        decreases fields@.len() - i,
    {
        if found.is_none() {
            match fields[i] {
                HidReportField::Variable(v) => {
                    if v.page() == page && v.id() == id {
                        found = Some(v);
                    }
                },
                HidReportField::Other => {},
            }
        }
        i = i + 1;
    }
    found
}

fn all_with_usage(fields: &Vec<HidReportField>, page: u16, id: u16) -> (r: Vec<HidField>)
    ensures
        r@ == usage_fields(fields@, page, id),
{
    let mut found: Vec<HidField> = Vec::new();
    let mut i: usize = 0;
    while i < fields.len()
        invariant
            i <= fields@.len(),
            found@ == usage_fields_in(fields@, page, id, i as int),
        decreases fields@.len() - i,
    {
        match fields[i] {
            HidReportField::Variable(v) => {
                if v.page() == page && v.id() == id {
                    found.push(v);
                }
            },
            HidReportField::Other => {},
        }
        i = i + 1;
    }
    found
}

fn button_bindings(fields: &Vec<HidReportField>) -> (r: Vec<ButtonBinding>)
    ensures
        r@ == bindings(fields@),
{
    let mut found: Vec<ButtonBinding> = Vec::new();
    let mut i: usize = 0;
    while i < fields.len()
        invariant
            i <= fields@.len(),
            found@ == bindings_in(fields@, i as int),
        decreases fields@.len() - i,
    {
        match fields[i] {
            HidReportField::Variable(v) => {
                if v.page() == 0x09 {
                    match generic_button_kind_for_usage(v.id()) {
                        Some(kind) => found.push(ButtonBinding { kind, field: v }),
                        None => {},
                    }
                }
            },
            HidReportField::Other => {},
        }
        i = i + 1;
    }
    found
}

/// Two fields are the same when their usage and bits agree.
pub open spec fn same_field_option(a: Option<HidField>, b: Option<HidField>) -> bool {
    match (a, b) {
        (Some(x), Some(y)) => x.usage == y.usage && x.bit_start == y.bit_start && x.bit_end
            == y.bit_end,
        _ => false,
    }
}

/// Whether a field is present and suits a trigger.
pub open spec fn trigger_axis_supported(field: Option<HidField>) -> bool {
    match field {
        Some(f) => f.spec_trigger_axis(),
        None => false,
    }
}

/// Whether a slider or dial can serve as a trigger next to the chosen right
/// stick.
pub open spec fn extra_trigger_ok(f: HidField, right_x: Option<HidField>, right_y: Option<HidField>) -> bool {
    trigger_axis_supported(Some(f)) && !same_field_option(Some(f), right_x) && !same_field_option(
        Some(f),
        right_y,
    )
}

/// The right stick: rx/ry, else z/rz, else rx/rz, else z/ry, else the first
/// slider with the first dial.
pub open spec fn spec_pick_right_stick(
    rx: Option<HidField>,
    ry: Option<HidField>,
    z: Option<HidField>,
    rz: Option<HidField>,
    slider: Seq<HidField>,
    dial: Seq<HidField>,
) -> (Option<HidField>, Option<HidField>) {
    if rx.is_some() && ry.is_some() {
        (rx, ry)
    } else if z.is_some() && rz.is_some() {
        (z, rz)
    } else if rx.is_some() && rz.is_some() {
        (rx, rz)
    } else if z.is_some() && ry.is_some() {
        (z, ry)
    } else if slider.len() > 0 && dial.len() > 0 {
        (Some(slider[0]), Some(dial[0]))
    } else {
        (None, None)
    }
}

/// The triggers: accelerator/brake when both suit, else z/rz when both suit
/// and neither is part of the right stick, else the first two sliders or
/// dials that suit and are not part of the right stick.
pub open spec fn spec_pick_triggers(
    accelerator: Option<HidField>,
    brake: Option<HidField>,
    z: Option<HidField>,
    rz: Option<HidField>,
    slider: Seq<HidField>,
    dial: Seq<HidField>,
    right_x: Option<HidField>,
    right_y: Option<HidField>,
) -> (Option<HidField>, Option<HidField>) {
    if trigger_axis_supported(accelerator) && trigger_axis_supported(brake) {
        (accelerator, brake)
    } else if trigger_axis_supported(z) && trigger_axis_supported(rz) && !same_field_option(
        z,
        right_x,
    ) && !same_field_option(z, right_y) && !same_field_option(rz, right_x) && !same_field_option(
        rz,
        right_y,
    ) {
        (z, rz)
    } else {
        let extras = (slider + dial).filter(|f: HidField| extra_trigger_ok(f, right_x, right_y));
        if extras.len() >= 2 {
            (Some(extras[0]), Some(extras[1]))
        } else {
            (None, None)
        }
    }
}

fn same_field_option_exec(a: Option<HidField>, b: Option<HidField>) -> (r: bool)
    ensures
        r == same_field_option(a, b),
{
    match (a, b) {
        (Some(x), Some(y)) => x.usage == y.usage && x.bit_start == y.bit_start && x.bit_end
            == y.bit_end,
        _ => false,
    }
}

fn trigger_axis_supported_exec(field: Option<HidField>) -> (r: bool)
    ensures
        r == trigger_axis_supported(field),
{
    match field {
        Some(f) => {
            let min = f.logical_minimum as i64;
            let max = f.logical_max();
            min >= 0 && max > min
        },
        None => false,
    }
}

fn pick_right_stick(
    rx: Option<HidField>,
    ry: Option<HidField>,
    z: Option<HidField>,
    rz: Option<HidField>,
    slider: &Vec<HidField>,
    dial: &Vec<HidField>,
) -> (r: (Option<HidField>, Option<HidField>))
    ensures
        r == spec_pick_right_stick(rx, ry, z, rz, slider@, dial@),
{
    if rx.is_some() && ry.is_some() {
        return (rx, ry);
    }
    if z.is_some() && rz.is_some() {
        return (z, rz);
    }
    if rx.is_some() && rz.is_some() {
        return (rx, rz);
    }
    if z.is_some() && ry.is_some() {
        return (z, ry);
    }
    if slider.len() > 0 && dial.len() > 0 {
        return (Some(slider[0]), Some(dial[0]));
    }
    (None, None)
}

fn pick_triggers(
    accelerator: Option<HidField>,
    brake: Option<HidField>,
    z: Option<HidField>,
    rz: Option<HidField>,
    slider: &Vec<HidField>,
    dial: &Vec<HidField>,
    right_x: Option<HidField>,
    right_y: Option<HidField>,
) -> (r: (Option<HidField>, Option<HidField>))
    ensures
        r == spec_pick_triggers(accelerator, brake, z, rz, slider@, dial@, right_x, right_y),
{
    if trigger_axis_supported_exec(accelerator) && trigger_axis_supported_exec(brake) {
        return (accelerator, brake);
    }
    if trigger_axis_supported_exec(z) && trigger_axis_supported_exec(rz) && !same_field_option_exec(
        z,
        right_x,
    ) && !same_field_option_exec(z, right_y) && !same_field_option_exec(rz, right_x)
        && !same_field_option_exec(rz, right_y) {
        return (z, rz);
    }
    let ghost pred = |f: HidField| extra_trigger_ok(f, right_x, right_y);
    let mut extras: Vec<HidField> = Vec::new();
    let mut i: usize = 0;
    while i < slider.len()
        invariant
            pred == (|f: HidField| extra_trigger_ok(f, right_x, right_y)),
            i <= slider@.len(),
            extras@ == (slider@.take(i as int)).filter(pred),
        decreases slider@.len() - i,
    {
        let f = slider[i];
        if trigger_axis_supported_exec(Some(f)) && !same_field_option_exec(Some(f), right_x)
            && !same_field_option_exec(Some(f), right_y) {
            extras.push(f);
        }
        proof {
            reveal_with_fuel(Seq::<HidField>::filter, 1);
            assert(slider@.take(i + 1).drop_last() =~= slider@.take(i as int));
        }
        i = i + 1;
    }
    let mut j: usize = 0;
    assert(slider@ + dial@.take(0) =~= slider@.take(i as int));
    while j < dial.len()
        invariant
            pred == (|f: HidField| extra_trigger_ok(f, right_x, right_y)),
            j <= dial@.len(),
            extras@ == (slider@ + dial@.take(j as int)).filter(pred),
        decreases dial@.len() - j,
    {
        let f = dial[j];
        if trigger_axis_supported_exec(Some(f)) && !same_field_option_exec(Some(f), right_x)
            && !same_field_option_exec(Some(f), right_y) {
            extras.push(f);
        }
        proof {
            reveal_with_fuel(Seq::<HidField>::filter, 1);
            assert((slider@ + dial@.take(j + 1)).drop_last() =~= slider@ + dial@.take(j as int));
            assert((slider@ + dial@.take(j + 1)).last() == f);
        }
        j = j + 1;
    }
    assert(dial@.take(j as int) =~= dial@);
    if extras.len() >= 2 {
        (Some(extras[0]), Some(extras[1]))
    } else {
        (None, None)
    }
}

/// How a generic HID input report is read as a gamepad.
#[derive(Clone, Debug, PartialEq, Eq)]
pub struct GenericReportLayout {
    pub report_id: Option<u8>,
    pub report_size_bytes: usize,
    pub score: u32,
    pub left_x: HidField,
    pub left_y: HidField,
    pub right_x: Option<HidField>,
    pub right_y: Option<HidField>,
    pub l2: Option<HidField>,
    pub r2: Option<HidField>,
    pub hat: Option<HidField>,
    pub dpad: DpadButtonFields,
    pub buttons: Vec<ButtonBinding>,
}

/// The report id as a byte, when it fits in one.
pub open spec fn report_id_byte(report_id: Option<u32>) -> Option<u8> {
    match report_id {
        Some(id) => if id <= 255 {
            Some(id as u8)
        } else {
            None
        },
        None => None,
    }
}

/// Bytes needed for `bits` bits.
pub open spec fn bytes_for_bits(bits: usize) -> usize {
    (bits / 8 + if bits % 8 != 0 {
        1usize
    } else {
        0usize
    }) as usize
}

/// How well a layout covers a gamepad: 40 for the left stick and buttons,
/// 16 for a right stick, 8 for both triggers, 6 for a hat or digital d-pad,
/// plus one per button up to twelve.
pub open spec fn layout_score(
    right_x: Option<HidField>,
    right_y: Option<HidField>,
    l2: Option<HidField>,
    r2: Option<HidField>,
    hat: Option<HidField>,
    dpad: DpadButtonFields,
    button_count: int,
) -> int {
    40 + (if right_x.is_some() && right_y.is_some() {
        16int
    } else {
        0
    }) + (if l2.is_some() && r2.is_some() {
        8int
    } else {
        0
    }) + (if hat.is_some() || dpad.up.is_some() || dpad.down.is_some() || dpad.left.is_some()
        || dpad.right.is_some() {
        6int
    } else {
        0
    }) + (if button_count < 12 {
        button_count
    } else {
        12
    })
}

/// The digital d-pad switches among a report's fields.
pub open spec fn report_dpad(fields: Seq<HidReportField>) -> DpadButtonFields {
    DpadButtonFields {
        up: first_usage(fields, 0x01, 0x90),
        down: first_usage(fields, 0x01, 0x91),
        right: first_usage(fields, 0x01, 0x92),
        left: first_usage(fields, 0x01, 0x93),
    }
}

/// Whether a report can be read as a gamepad: it has X and Y axes and at
/// least one button.
pub open spec fn report_is_gamepad(report: HidReport) -> bool {
    let fields = report.fields@;
    first_usage(fields, 0x01, 0x30).is_some() && first_usage(fields, 0x01, 0x31).is_some()
        && bindings(fields).len() > 0
}

/// `layout` is the gamepad layout of `report`: X and Y are the left stick,
/// the right stick and triggers are picked from the remaining axes, and the
/// hat, d-pad switches and buttons are the report's own.
pub open spec fn is_layout_of(layout: GenericReportLayout, report: HidReport) -> bool {
    let f = report.fields@;
    let rx = first_usage(f, 0x01, 0x33);
    let ry = first_usage(f, 0x01, 0x34);
    let z = first_usage(f, 0x01, 0x32);
    let rz = first_usage(f, 0x01, 0x35);
    let slider = usage_fields(f, 0x01, 0x36);
    let dial = usage_fields(f, 0x01, 0x37);
    let right = spec_pick_right_stick(rx, ry, z, rz, slider, dial);
    let triggers = spec_pick_triggers(
        first_usage(f, 0x02, 0xc4),
        first_usage(f, 0x02, 0xc5),
        z,
        rz,
        slider,
        dial,
        right.0,
        right.1,
    );
    let hat = first_usage(f, 0x01, 0x39);
    let dpad = report_dpad(f);
    &&& Some(layout.left_x) == first_usage(f, 0x01, 0x30)
    &&& Some(layout.left_y) == first_usage(f, 0x01, 0x31)
    &&& layout.report_id == report_id_byte(report.report_id)
    &&& layout.report_size_bytes == bytes_for_bits(report.size_in_bits)
    &&& layout.right_x == right.0
    &&& layout.right_y == right.1
    &&& layout.l2 == triggers.0
    &&& layout.r2 == triggers.1
    &&& layout.hat == hat
    &&& layout.dpad == dpad
    &&& layout.buttons@ == bindings(f)
    &&& layout.score == layout_score(
        right.0,
        right.1,
        triggers.0,
        triggers.1,
        hat,
        dpad,
        bindings(f).len() as int,
    )
}

impl GenericReportLayout {
    /// The gamepad layout of a HID input report, when it has X and Y axes and
    /// at least one button.
    pub fn from_hid_report(report: &HidReport) -> (r: Option<GenericReportLayout>)
        ensures
            match r {
                Some(layout) => report_is_gamepad(*report) && is_layout_of(layout, *report),
                None => !report_is_gamepad(*report),
            },
    {
        let report_id = match report.report_id {
            Some(id) => if id <= 255 {
                Some(id as u8)
            } else {
                None
            },
            None => None,
        };
        let report_size_bytes = report.size_in_bits / 8 + if report.size_in_bits % 8 != 0 {
            1usize
        } else {
            0usize
        };
        let fields = &report.fields;
        let x = first_with_usage(fields, 0x01, 0x30);
        let y = first_with_usage(fields, 0x01, 0x31);
        let z = first_with_usage(fields, 0x01, 0x32);
        let rx = first_with_usage(fields, 0x01, 0x33);
        let ry = first_with_usage(fields, 0x01, 0x34);
        let rz = first_with_usage(fields, 0x01, 0x35);
        let slider = all_with_usage(fields, 0x01, 0x36);
        let dial = all_with_usage(fields, 0x01, 0x37);
        let hat = first_with_usage(fields, 0x01, 0x39);
        let dpad = DpadButtonFields {
            up: first_with_usage(fields, 0x01, 0x90),
            down: first_with_usage(fields, 0x01, 0x91),
            right: first_with_usage(fields, 0x01, 0x92),
            left: first_with_usage(fields, 0x01, 0x93),
        };
        let accelerator = first_with_usage(fields, 0x02, 0xc4);
        let brake = first_with_usage(fields, 0x02, 0xc5);
        let buttons = button_bindings(fields);

        let left_x = match x {
            Some(f) => f,
            None => return None,
        };
        let left_y = match y {
            Some(f) => f,
            None => return None,
        };
        if buttons.len() == 0 {
            return None;
        }
        let (right_x, right_y) = pick_right_stick(rx, ry, z, rz, &slider, &dial);
        let (l2, r2) = pick_triggers(accelerator, brake, z, rz, &slider, &dial, right_x, right_y);

        let mut score: u32 = 40;
        if right_x.is_some() && right_y.is_some() {
            score = score + 16;
        }
        if l2.is_some() && r2.is_some() {
            score = score + 8;
        }
        if hat.is_some() || dpad.up.is_some() || dpad.down.is_some() || dpad.left.is_some()
            || dpad.right.is_some() {
            score = score + 6;
        }
        score = score + if buttons.len() < 12 {
            buttons.len() as u32
        } else {
            12
        };
        Some(
            GenericReportLayout {
                report_id,
                report_size_bytes,
                score,
                left_x,
                left_y,
                right_x,
                right_y,
                l2,
                r2,
                hat,
                dpad,
                buttons,
            },
        )
    }
}

/// The part of a report that a layout reads: after the report id byte when
/// the layout has one (the report must start with it); for a layout without
/// an id, the whole report, or the report after a leading zero byte when it
/// is longer than the layout.
pub open spec fn spec_payload(report_id: Option<u8>, size: usize, report: Seq<u8>) -> Option<
    Seq<u8>,
> {
    match report_id {
        Some(id) => if report.len() > 0 && report[0] == id && report.len() - 1 >= size {
            Some(report.drop_first())
        } else {
            None
        },
        None => if report.len() >= size {
            Some(report)
        } else if report.len() > 0 && report[0] == 0 && report.len() > size {
            Some(report.drop_first())
        } else {
            None
        },
    }
}

/// A field value scaled from the field's logical range onto `0..=255`,
/// rounding to nearest; values outside the range are clamped first.  `None`
/// when the range is empty.
pub open spec fn scaled_byte(field: HidField, value: i64) -> Option<u8> {
    let min = field.logical_minimum as int;
    let max = field.spec_logical_max();
    if max <= min {
        None
    } else {
        let clamped = if value < min {
            min
        } else if value > max {
            max
        } else {
            value as int
        };
        let scaled = ((clamped - min) * 255 + (max - min) / 2) / (max - min);
        Some(
            (if scaled < 0 {
                0
            } else if scaled > 255 {
                255
            } else {
                scaled
            }) as u8,
        )
    }
}

/// The raw value of a field in a payload.
pub open spec fn spec_field_value(field: HidField, payload: Seq<u8>) -> Option<i64> {
    hid_field_value(
        field.bit_start,
        field.bit_end,
        field.logical_minimum,
        field.logical_maximum,
        payload,
    )
}

/// An axis field read as a byte.
pub open spec fn spec_read_axis(field: HidField, payload: Seq<u8>) -> Option<u8> {
    match spec_field_value(field, payload) {
        Some(v) => scaled_byte(field, v),
        None => None,
    }
}

/// A button field is pressed when it reads a non-zero value.
pub open spec fn spec_field_pressed(field: HidField, payload: Seq<u8>) -> bool {
    match spec_field_value(field, payload) {
        Some(v) => v != 0,
        None => false,
    }
}

pub open spec fn spec_optional_pressed(field: Option<HidField>, payload: Seq<u8>) -> bool {
    match field {
        Some(f) => spec_field_pressed(f, payload),
        None => false,
    }
}

/// An optional trigger axis as a byte, zero when absent or unreadable.
pub open spec fn spec_optional_axis(field: Option<HidField>, payload: Seq<u8>) -> u8 {
    match field {
        Some(f) => match spec_read_axis(f, payload) {
            Some(v) => v,
            None => 0,
        },
        None => 0,
    }
}

/// `buttons` with the logical button `kind` set to `pressed`.
pub open spec fn spec_set_button(buttons: Buttons, kind: GenericButtonKind, pressed: bool) -> Buttons {
    match kind {
        GenericButtonKind::Square => Buttons { square: pressed, ..buttons },
        GenericButtonKind::Circle => Buttons { circle: pressed, ..buttons },
        GenericButtonKind::Cross => Buttons { cross: pressed, ..buttons },
        GenericButtonKind::Triangle => Buttons { triangle: pressed, ..buttons },
        GenericButtonKind::L1 => Buttons { l1: pressed, ..buttons },
        GenericButtonKind::R1 => Buttons { r1: pressed, ..buttons },
        GenericButtonKind::L2Button => Buttons { l2_button: pressed, ..buttons },
        GenericButtonKind::R2Button => Buttons { r2_button: pressed, ..buttons },
        GenericButtonKind::Create => Buttons { create: pressed, ..buttons },
        GenericButtonKind::Options => Buttons { options: pressed, ..buttons },
        GenericButtonKind::L3 => Buttons { l3: pressed, ..buttons },
        GenericButtonKind::R3 => Buttons { r3: pressed, ..buttons },
        GenericButtonKind::Ps => Buttons { ps: pressed, ..buttons },
        GenericButtonKind::Touchpad => Buttons { touchpad: pressed, ..buttons },
        GenericButtonKind::Mute => Buttons { mute: pressed, ..buttons },
    }
}

/// The buttons after applying the first `n` bindings in order to released
/// buttons: a later binding of the same logical button wins.
pub open spec fn spec_apply_bindings(bindings: Seq<ButtonBinding>, payload: Seq<u8>, n: int) -> Buttons
    decreases n,
{
    if n <= 0 {
        Buttons::spec_released()
    } else {
        spec_set_button(
            spec_apply_bindings(bindings, payload, n - 1),
            bindings[n - 1].kind,
            spec_field_pressed(bindings[n - 1].field, payload),
        )
    }
}

/// The d-pad of a layout: the digital switches when they give a direction,
/// else the hat switch, else neutral.
pub open spec fn spec_layout_dpad(layout: GenericReportLayout, payload: Seq<u8>) -> DpadDirection {
    let digital = composed_direction(
        spec_optional_pressed(layout.dpad.up, payload),
        spec_optional_pressed(layout.dpad.down, payload),
        spec_optional_pressed(layout.dpad.left, payload),
        spec_optional_pressed(layout.dpad.right, payload),
    );
    if digital != DpadDirection::Neutral {
        digital
    } else {
        match layout.hat {
            Some(h) => match spec_field_value(h, payload) {
                Some(v) => hat_direction(v as int),
                None => DpadDirection::Neutral,
            },
            None => DpadDirection::Neutral,
        }
    }
}

/// The controller state a layout reads from a report, or `None` when the
/// report does not match the layout or a stick cannot be read.
pub open spec fn spec_layout_parse(layout: GenericReportLayout, report: Seq<u8>) -> Option<ControllerState> {
    match spec_payload(layout.report_id, layout.report_size_bytes, report) {
        None => None,
        Some(payload) => {
            let lx = spec_read_axis(layout.left_x, payload);
            let ly = spec_read_axis(layout.left_y, payload);
            let right = match (layout.right_x, layout.right_y) {
                (Some(rx), Some(ry)) => match (spec_read_axis(rx, payload), spec_read_axis(ry, payload)) {
                    (Some(x), Some(y)) => Some(StickState { raw_x: x, raw_y: y }),
                    _ => None,
                },
                _ => Some(StickState::spec_neutral()),
            };
            if lx.is_none() || ly.is_none() || right.is_none() {
                None
            } else {
                Some(
                    ControllerState {
                        left_stick: StickState { raw_x: lx.unwrap(), raw_y: ly.unwrap() },
                        right_stick: right.unwrap(),
                        l2: spec_optional_axis(layout.l2, payload),
                        r2: spec_optional_axis(layout.r2, payload),
                        dpad: spec_layout_dpad(layout, payload),
                        buttons: spec_apply_bindings(
                            layout.buttons@,
                            payload,
                            layout.buttons@.len() as int,
                        ),
                    },
                )
            }
        },
    }
}

/// An optional field is absent or can be read.
pub open spec fn optional_readable(field: Option<HidField>) -> bool {
    field matches Some(f) ==> f.spec_readable()
}

/// The d-pad fields that a layout reads from a payload can be read: the
/// digital switches, and the hat switch when the switches give no direction.
pub open spec fn spec_dpad_readable(layout: GenericReportLayout, payload: Seq<u8>) -> bool {
    &&& optional_readable(layout.dpad.up)
    &&& optional_readable(layout.dpad.down)
    &&& optional_readable(layout.dpad.left)
    &&& optional_readable(layout.dpad.right)
    &&& (composed_direction(
        spec_optional_pressed(layout.dpad.up, payload),
        spec_optional_pressed(layout.dpad.down, payload),
        spec_optional_pressed(layout.dpad.left, payload),
        spec_optional_pressed(layout.dpad.right, payload),
    ) == DpadDirection::Neutral ==> optional_readable(layout.hat))
}

/// Every button field of a layout can be read.
pub open spec fn spec_buttons_readable(layout: GenericReportLayout) -> bool {
    forall|i: int| 0 <= i < layout.buttons@.len() ==> (#[trigger] layout.buttons@[i]).field.spec_readable()
}

/// The fields read after the triggers can be read: the right stick's axes
/// (reading stops at the first without a value), then the d-pad and buttons.
pub open spec fn spec_rest_readable(layout: GenericReportLayout, payload: Seq<u8>) -> bool {
    let tail = spec_dpad_readable(layout, payload) && spec_buttons_readable(layout);
    match (layout.right_x, layout.right_y) {
        (Some(rx), Some(ry)) => rx.spec_readable() && (spec_read_axis(rx, payload) is Some ==> (
        ry.spec_readable() && (spec_read_axis(ry, payload) is Some ==> tail))),
        _ => tail,
    }
}

impl GenericReportLayout {
    /// Every field that reading `report` touches can be read.  The fields are
    /// read in order: left stick, triggers, right stick, d-pad, buttons;
    /// reading stops at a report the layout does not match and at the first
    /// stick axis without a value.
    pub open spec fn spec_reads_readable(&self, report: Seq<u8>) -> bool {
        match spec_payload(self.report_id, self.report_size_bytes, report) {
            None => true,
            Some(p) => self.left_x.spec_readable() && (spec_read_axis(self.left_x, p) is Some ==> (
            self.left_y.spec_readable() && (spec_read_axis(self.left_y, p) is Some ==> (
            optional_readable(self.l2) && optional_readable(self.r2) && spec_rest_readable(
                *self,
                p,
            ))))),
        }
    }
}

/// A field value scaled from the field's logical range onto a byte.
pub fn scale_field_value_to_byte(field: &HidField, value: i64) -> (r: Option<u8>)
    ensures
        r == scaled_byte(*field, value),
{
    let min = field.logical_minimum as i64;
    let max = field.logical_max();
    if max <= min {
        return None;
    }
    let clamped = if value < min {
        min
    } else if value > max {
        max
    } else {
        value
    };
    let range: u64 = (max - min) as u64;
    let offset: u64 = (clamped - min) as u64;
    assert(range < 0x2_0000_0000);
    assert(offset * 255 <= range * 255) by (nonlinear_arith)
        requires
            offset <= range,
    ;
    let scaled: u64 = (offset * 255 + range / 2) / range;
    let byte: u64 = if scaled > 255 {
        255
    } else {
        scaled
    };
    Some(byte as u8)
}

fn read_axis_field(field: &HidField, payload: &[u8]) -> (r: Option<u8>)
    requires
        field.spec_readable(),
    ensures
        r == spec_read_axis(*field, payload@),
{
    match field_value(field, payload) {
        Some(v) => scale_field_value_to_byte(field, v),
        None => None,
    }
}

fn field_pressed(field: &HidField, payload: &[u8]) -> (r: bool)
    requires
        field.spec_readable(),
    ensures
        r == spec_field_pressed(*field, payload@),
{
    match field_value(field, payload) {
        Some(v) => v != 0,
        None => false,
    }
}

fn optional_pressed(field: &Option<HidField>, payload: &[u8]) -> (r: bool)
    requires
        field matches Some(f) ==> f.spec_readable(),
    ensures
        r == spec_optional_pressed(*field, payload@),
{
    match field {
        Some(f) => field_pressed(f, payload),
        None => false,
    }
}

fn optional_axis(field: &Option<HidField>, payload: &[u8]) -> (r: u8)
    requires
        field matches Some(f) ==> f.spec_readable(),
    ensures
        r == spec_optional_axis(*field, payload@),
{
    match field {
        Some(f) => match read_axis_field(f, payload) {
            Some(v) => v,
            None => 0,
        },
        None => 0,
    }
}

fn optional_readable_exec(field: &Option<HidField>) -> (r: bool)
    ensures
        r == optional_readable(*field),
{
    match field {
        Some(f) => f.readable(),
        None => true,
    }
}

/// The direction of a hat-switch value.
pub fn dpad_from_hat_value(value: i64) -> (r: DpadDirection)
    ensures
        r == hat_direction(value as int),
{
    if value == 0 {
        DpadDirection::North
    } else if value == 1 {
        DpadDirection::NorthEast
    } else if value == 2 {
        DpadDirection::East
    } else if value == 3 {
        DpadDirection::SouthEast
    } else if value == 4 {
        DpadDirection::South
    } else if value == 5 {
        DpadDirection::SouthWest
    } else if value == 6 {
        DpadDirection::West
    } else if value == 7 {
        DpadDirection::NorthWest
    } else {
        DpadDirection::Neutral
    }
}

/// Sets the logical button `kind` to `pressed`.
pub fn apply_button_binding(buttons: &mut Buttons, kind: GenericButtonKind, pressed: bool)
    ensures
        *final(buttons) == spec_set_button(*old(buttons), kind, pressed),
{
    let b = *buttons;
    *buttons = match kind {
        GenericButtonKind::Square => Buttons { square: pressed, ..b },
        GenericButtonKind::Circle => Buttons { circle: pressed, ..b },
        GenericButtonKind::Cross => Buttons { cross: pressed, ..b },
        GenericButtonKind::Triangle => Buttons { triangle: pressed, ..b },
        GenericButtonKind::L1 => Buttons { l1: pressed, ..b },
        GenericButtonKind::R1 => Buttons { r1: pressed, ..b },
        GenericButtonKind::L2Button => Buttons { l2_button: pressed, ..b },
        GenericButtonKind::R2Button => Buttons { r2_button: pressed, ..b },
        GenericButtonKind::Create => Buttons { create: pressed, ..b },
        GenericButtonKind::Options => Buttons { options: pressed, ..b },
        GenericButtonKind::L3 => Buttons { l3: pressed, ..b },
        GenericButtonKind::R3 => Buttons { r3: pressed, ..b },
        GenericButtonKind::Ps => Buttons { ps: pressed, ..b },
        GenericButtonKind::Touchpad => Buttons { touchpad: pressed, ..b },
        GenericButtonKind::Mute => Buttons { mute: pressed, ..b },
    };
}

impl GenericReportLayout {
    /// The part of a report that the layout reads.
    pub fn payload<'a>(&self, report: &'a [u8]) -> (r: Option<&'a [u8]>)
        ensures
            match r {
                Some(p) => spec_payload(self.report_id, self.report_size_bytes, report@) == Some(p@),
                None => spec_payload(self.report_id, self.report_size_bytes, report@).is_none(),
            },
    {
        match self.report_id {
            Some(id) => {
                if report.len() > 0 && report[0] == id {
                    let payload = report.split_at(1).1;
                    assert(payload@ =~= report@.drop_first());
                    if payload.len() >= self.report_size_bytes {
                        Some(payload)
                    } else {
                        None
                    }
                } else {
                    None
                }
            },
            None => {
                if report.len() >= self.report_size_bytes {
                    Some(report)
                } else if report.len() > 0 && report[0] == 0 && report.len()
                    > self.report_size_bytes {
                    let payload = report.split_at(1).1;
                    assert(payload@ =~= report@.drop_first());
                    Some(payload)
                } else {
                    None
                }
            },
        }
    }

    fn read_dpad(&self, payload: &[u8]) -> (r: Option<DpadDirection>)
        ensures
            r.is_some() == spec_dpad_readable(*self, payload@),
            r matches Some(d) ==> d == spec_layout_dpad(*self, payload@),
    {
        if !(optional_readable_exec(&self.dpad.up) && optional_readable_exec(&self.dpad.down)
            && optional_readable_exec(&self.dpad.left) && optional_readable_exec(
            &self.dpad.right,
        )) {
            return None;
        }
        let digital = compose_dpad(
            optional_pressed(&self.dpad.up, payload),
            optional_pressed(&self.dpad.down, payload),
            optional_pressed(&self.dpad.left, payload),
            optional_pressed(&self.dpad.right, payload),
        );
        if digital != DpadDirection::Neutral {
            return Some(digital);
        }
        match &self.hat {
            Some(h) => {
                if !h.readable() {
                    return None;
                }
                match field_value(h, payload) {
                    Some(v) => Some(dpad_from_hat_value(v)),
                    None => Some(DpadDirection::Neutral),
                }
            },
            None => Some(DpadDirection::Neutral),
        }
    }

    fn read_buttons(&self, payload: &[u8]) -> (r: Option<Buttons>)
        ensures
            r.is_some() == spec_buttons_readable(*self),
            r matches Some(b) ==> b == spec_apply_bindings(
                self.buttons@,
                payload@,
                self.buttons@.len() as int,
            ),
    {
        let mut buttons = Buttons::default();
        let mut i: usize = 0;
        while i < self.buttons.len()
            invariant
                i <= self.buttons@.len(),
                forall|k: int| 0 <= k < i ==> (#[trigger] self.buttons@[k]).field.spec_readable(),
                buttons == spec_apply_bindings(self.buttons@, payload@, i as int),
            decreases self.buttons@.len() - i,
        {
            let binding = self.buttons[i];
            if !binding.field.readable() {
                return None;
            }
            let pressed = field_pressed(&binding.field, payload);
            apply_button_binding(&mut buttons, binding.kind, pressed);
            i = i + 1;
        }
        Some(buttons)
    }

    /// Reads a report as [`GenericReportLayout::parse`] does, or gives `None`
    /// where that would touch a field that cannot be read.
    fn parse_checked(&self, report: &[u8]) -> (r: Option<Option<ControllerState>>)
        ensures
            r.is_some() == self.spec_reads_readable(report@),
            r matches Some(state) ==> state == spec_layout_parse(*self, report@),
    {
        let payload = match self.payload(report) {
            Some(p) => p,
            None => return Some(None),
        };
        if !self.left_x.readable() {
            return None;
        }
        let left_x = match read_axis_field(&self.left_x, payload) {
            Some(v) => v,
            None => return Some(None),
        };
        if !self.left_y.readable() {
            return None;
        }
        let left_y = match read_axis_field(&self.left_y, payload) {
            Some(v) => v,
            None => return Some(None),
        };
        if !(optional_readable_exec(&self.l2) && optional_readable_exec(&self.r2)) {
            return None;
        }
        let l2 = optional_axis(&self.l2, payload);
        let r2 = optional_axis(&self.r2, payload);
        let right_stick = match (&self.right_x, &self.right_y) {
            (Some(rx), Some(ry)) => {
                if !rx.readable() {
                    return None;
                }
                let x = match read_axis_field(rx, payload) {
                    Some(v) => v,
                    None => return Some(None),
                };
                if !ry.readable() {
                    return None;
                }
                let y = match read_axis_field(ry, payload) {
                    Some(v) => v,
                    None => return Some(None),
                };
                StickState::new(x, y)
            },
            _ => StickState::neutral(),
        };
        let dpad = match self.read_dpad(payload) {
            Some(d) => d,
            None => return None,
        };
        let buttons = match self.read_buttons(payload) {
            Some(b) => b,
            None => return None,
        };
        Some(
            Some(
                ControllerState {
                    left_stick: StickState::new(left_x, left_y),
                    right_stick,
                    l2,
                    r2,
                    dpad,
                    buttons,
                },
            ),
        )
    }

    /// The controller state the layout reads from a report.  Every field
    /// that the reading touches must be one that can be read.
    pub fn parse(&self, report: &[u8]) -> (r: Option<ControllerState>)
        requires
            self.spec_reads_readable(report@),
        ensures
            r == spec_layout_parse(*self, report@),
    {
        match self.parse_checked(report) {
            Some(state) => state,
            None => None,
        }
    }

    /// Whether every field that reading `report` touches can be read.
    pub fn reads_readable(&self, report: &[u8]) -> (r: bool)
        ensures
            r == self.spec_reads_readable(report@),
    {
        self.parse_checked(report).is_some()
    }
}

/// Why no generic parser could be built from a report descriptor.
#[derive(Clone, Copy, Debug, PartialEq, Eq)]
pub enum GenericParserError {
    /// The device returned an empty descriptor.
    EmptyDescriptor,
    /// The descriptor parser rejected the descriptor.
    InvalidDescriptor(ReportDescriptorError),
    /// No input report has X and Y axes and a button.
    NoGamepadReport,
    /// The descriptor's report sizes and counts are too large for the
    /// descriptor parser's 32-bit bit positions.
    OversizedDescriptor,
}

/// The position of the first layout in `sorted` whose score is below
/// `score`, or its length.
pub open spec fn first_lower_score(sorted: Seq<GenericReportLayout>, score: u32, i: int) -> int
    decreases sorted.len() - i,
{
    if i < 0 || i >= sorted.len() {
        sorted.len() as int
    } else if sorted[i].score < score {
        i
    } else {
        first_lower_score(sorted, score, i + 1)
    }
}

/// `layout` inserted after every layout of at least its score.
pub open spec fn insert_by_score(sorted: Seq<GenericReportLayout>, layout: GenericReportLayout) -> Seq<
    GenericReportLayout,
> {
    sorted.insert(first_lower_score(sorted, layout.score, 0), layout)
}

/// The layouts ordered from the highest score down; layouts of equal score
/// keep their order.
pub open spec fn sort_by_score(layouts: Seq<GenericReportLayout>) -> Seq<GenericReportLayout>
    decreases layouts.len(),
{
    if layouts.len() == 0 {
        Seq::empty()
    } else {
        insert_by_score(sort_by_score(layouts.drop_last()), layouts.last())
    }
}

/// Scores never increase along `s`.
pub open spec fn scores_descending(s: Seq<GenericReportLayout>) -> bool {
    forall|i: int, j: int| 0 <= i < j < s.len() ==> s[i].score >= s[j].score
}

proof fn lemma_first_lower_score_bounds(sorted: Seq<GenericReportLayout>, score: u32, i: int)
    requires
        0 <= i <= sorted.len(),
    ensures
        i <= first_lower_score(sorted, score, i) <= sorted.len(),
        forall|k: int| i <= k < first_lower_score(sorted, score, i) ==> sorted[k].score >= score,
        first_lower_score(sorted, score, i) < sorted.len() ==> sorted[first_lower_score(
            sorted,
            score,
            i,
        )].score < score,
    decreases sorted.len() - i,
{
    if i < sorted.len() && sorted[i].score >= score {
        lemma_first_lower_score_bounds(sorted, score, i + 1);
    }
}

proof fn lemma_insert_by_score_sorted(sorted: Seq<GenericReportLayout>, layout: GenericReportLayout)
    requires
        scores_descending(sorted),
    ensures
        scores_descending(insert_by_score(sorted, layout)),
        insert_by_score(sorted, layout).to_multiset() == sorted.to_multiset().insert(layout),
{
    lemma_first_lower_score_bounds(sorted, layout.score, 0);
    let p = first_lower_score(sorted, layout.score, 0);
    let r = insert_by_score(sorted, layout);
    assert forall|i: int, j: int| 0 <= i < j < r.len() implies r[i].score >= r[j].score by {
        if j < p {
        } else if j == p {
        } else if i < p {
            if p < sorted.len() {
                assert(sorted[p].score < layout.score);
            }
        } else if i == p {
            assert(sorted[p].score < layout.score);
            assert(sorted[p].score >= sorted[j - 1].score);
        } else {
        }
    }
    vstd::seq_lib::to_multiset_insert(sorted, p, layout);
}

/// Ordering by score gives a descending order of the same layouts.
pub proof fn lemma_sort_by_score(layouts: Seq<GenericReportLayout>)
    ensures
        scores_descending(sort_by_score(layouts)),
        sort_by_score(layouts).to_multiset() == layouts.to_multiset(),
    decreases layouts.len(),
{
    if layouts.len() == 0 {
        assert(layouts =~= Seq::<GenericReportLayout>::empty());
        assert(sort_by_score(layouts) =~= layouts);
    } else {
        lemma_sort_by_score(layouts.drop_last());
        lemma_insert_by_score_sorted(sort_by_score(layouts.drop_last()), layouts.last());
        vstd::seq_lib::to_multiset_build(layouts.drop_last(), layouts.last());
        assert(layouts.drop_last().push(layouts.last()) =~= layouts);
    }
}

/// The gamepad reports among `reports`, in order.
pub open spec fn gamepad_reports(reports: Seq<HidReport>) -> Seq<HidReport> {
    reports.filter(|r: HidReport| report_is_gamepad(r))
}

/// `layouts` are the layouts of `reports`, one for one.
pub open spec fn layouts_of(layouts: Seq<GenericReportLayout>, reports: Seq<HidReport>) -> bool {
    layouts.len() == reports.len() && forall|k: int|
        0 <= k < layouts.len() ==> is_layout_of(#[trigger] layouts[k], reports[k])
}

/// The result of the first layout, from position `i` on, that reads the
/// report.
pub open spec fn spec_parse_with(layouts: Seq<GenericReportLayout>, report: Seq<u8>, i: int) -> Option<
    ControllerState,
>
    decreases layouts.len() - i,
{
    if i < 0 || i >= layouts.len() {
        None
    } else {
        match spec_layout_parse(layouts[i], report) {
            Some(state) => Some(state),
            None => spec_parse_with(layouts, report, i + 1),
        }
    }
}

/// What building a parser from input reports gives: no parser when no
/// report is a gamepad, and otherwise the layouts of the gamepad reports
/// ordered by score, best first.
pub open spec fn reports_parser_outcome(
    reports: Seq<HidReport>,
    r: Result<GenericHidParser, GenericParserError>,
) -> bool {
    let gamepads = gamepad_reports(reports);
    exists|layouts: Seq<GenericReportLayout>|
        #![trigger layouts_of(layouts, gamepads)]
        layouts_of(layouts, gamepads) && if gamepads.len() == 0 {
            r == Err::<GenericHidParser, GenericParserError>(GenericParserError::NoGamepadReport)
        } else {
            r matches Ok(p) && p.layouts@ == sort_by_score(layouts)
        }
}

/// Reading `report` with the layouts from position `i` on touches only
/// fields that can be read: each layout is tried in turn until one reads
/// the report.
pub open spec fn layouts_read_readable(layouts: Seq<GenericReportLayout>, report: Seq<u8>, i: int) -> bool
    decreases layouts.len() - i,
{
    if i < 0 || i >= layouts.len() {
        true
    } else {
        layouts[i].spec_reads_readable(report) && (spec_layout_parse(layouts[i], report) is None
            ==> layouts_read_readable(layouts, report, i + 1))
    }
}

/// What building a parser from `descriptor` gives: an error for an empty
/// descriptor, an error for one too large for the descriptor parser, the
/// descriptor parser's error for a rejected one, and otherwise the outcome
/// for its input reports.
pub open spec fn descriptor_parser_outcome(
    descriptor: Seq<u8>,
    r: Result<GenericHidParser, GenericParserError>,
) -> bool {
    if descriptor.len() == 0 {
        r == Err::<GenericHidParser, GenericParserError>(GenericParserError::EmptyDescriptor)
    } else if !descriptor_within_limits(descriptor) {
        r == Err::<GenericHidParser, GenericParserError>(GenericParserError::OversizedDescriptor)
    } else {
        match descriptor_input_reports(descriptor) {
            None => r matches Err(GenericParserError::InvalidDescriptor(_)),
            Some(reports) => reports_parser_outcome(reports, r),
        }
    }
}

/// A gamepad reader built from a device's report descriptor: the gamepad
/// layouts of its input reports, best first.
#[derive(Clone, Debug)]
pub struct GenericHidParser {
    pub layouts: Vec<GenericReportLayout>,
}

impl GenericHidParser {
    /// Every field that reading `report` touches can be read.
    pub open spec fn spec_reads_readable(&self, report: Seq<u8>) -> bool {
        layouts_read_readable(self.layouts@, report, 0)
    }

    /// The parser of the given input reports: the layouts of the gamepad
    /// reports ordered by score, best first (ties in report order).
    pub fn from_reports(reports: &Vec<HidReport>) -> (r: Result<GenericHidParser, GenericParserError>)
        ensures
            reports_parser_outcome(reports@, r),
    {
        let ghost pred = |r: HidReport| report_is_gamepad(r);
        let ghost mut found: Seq<GenericReportLayout> = Seq::empty();
        let mut sorted: Vec<GenericReportLayout> = Vec::new();
        let mut i: usize = 0;
        assert(reports@.take(0) =~= Seq::<HidReport>::empty());
        while i < reports.len()
            invariant
                pred == (|r: HidReport| report_is_gamepad(r)),
                i <= reports@.len(),
                layouts_of(found, reports@.take(i as int).filter(pred)),
                sorted@ == sort_by_score(found),
            decreases reports@.len() - i,
        {
            let ghost before = found;
            let layout = GenericReportLayout::from_hid_report(&reports[i]);
            proof {
                reveal_with_fuel(Seq::<HidReport>::filter, 1);
                assert(reports@.take(i + 1).drop_last() =~= reports@.take(i as int));
            }
            match layout {
                Some(layout) => {
                    proof {
                        found = found.push(layout);
                        assert(found.drop_last() =~= before);
                    }
                    let mut p: usize = 0;
                    while p < sorted.len() && sorted[p].score >= layout.score
                        invariant
                            p <= sorted@.len(),
                            first_lower_score(sorted@, layout.score, 0) == first_lower_score(
                                sorted@,
                                layout.score,
                                p as int,
                            ),
                        decreases sorted@.len() - p,
                    {
                        p = p + 1;
                    }
                    sorted.insert(p, layout);
                },
                None => {},
            }
            i = i + 1;
        }
        assert(reports@.take(i as int) =~= reports@);
        let ghost gamepads = reports@.filter(pred);
        proof {
            lemma_sort_by_score(found);
            vstd::seq_lib::to_multiset_len(found);
            vstd::seq_lib::to_multiset_len(sort_by_score(found));
            assert(gamepad_reports(reports@) == gamepads);
            assert(layouts_of(found, gamepads));
        }
        if sorted.len() == 0 {
            return Err(GenericParserError::NoGamepadReport);
        }
        Ok(GenericHidParser { layouts: sorted })
    }

    /// The parser of a device's report descriptor.
    pub fn from_descriptor(descriptor: &[u8]) -> (r: Result<GenericHidParser, GenericParserError>)
        ensures
            descriptor_parser_outcome(descriptor@, r),
    {
        if descriptor.len() == 0 {
            return Err(GenericParserError::EmptyDescriptor);
        }
        if !check_descriptor_limits(descriptor) {
            return Err(GenericParserError::OversizedDescriptor);
        }
        match parse_input_reports(descriptor) {
            Ok(reports) => {
                let r = GenericHidParser::from_reports(&reports);
                assert(descriptor_input_reports(descriptor@) == Some(reports@));
                r
            },
            Err(error) => Err(GenericParserError::InvalidDescriptor(error)),
        }
    }

    /// Reads a report as [`GenericHidParser::parse`] does, or gives `None`
    /// where that would touch a field that cannot be read.
    fn parse_checked(&self, report: &[u8]) -> (r: Option<Option<ControllerState>>)
        ensures
            r.is_some() == self.spec_reads_readable(report@),
            r matches Some(state) ==> state == spec_parse_with(self.layouts@, report@, 0),
    {
        let mut i: usize = 0;
        while i < self.layouts.len()
            invariant
                i <= self.layouts@.len(),
                self.spec_reads_readable(report@) == layouts_read_readable(
                    self.layouts@,
                    report@,
                    i as int,
                ),
                spec_parse_with(self.layouts@, report@, 0) == spec_parse_with(
                    self.layouts@,
                    report@,
                    i as int,
                ),
            decreases self.layouts@.len() - i,
        {
            match self.layouts[i].parse_checked(report) {
                None => return None,
                Some(Some(state)) => return Some(Some(state)),
                Some(None) => {},
            }
            i = i + 1;
        }
        Some(None)
    }

    /// The state read by the first layout that reads the report.  Every
    /// field that the reading touches must be one that can be read.
    pub fn parse(&self, report: &[u8]) -> (r: Option<ControllerState>)
        requires
            self.spec_reads_readable(report@),
        ensures
            r == spec_parse_with(self.layouts@, report@, 0),
    {
        match self.parse_checked(report) {
            Some(state) => state,
            None => None,
        }
    }

    /// Whether every field that reading `report` touches can be read.
    pub fn reads_readable(&self, report: &[u8]) -> (r: bool)
        ensures
            r == self.spec_reads_readable(report@),
    {
        self.parse_checked(report).is_some()
    }
}


/// HID buttons 1 to 15 are, in order, Cross, Circle, Square, Triangle, L1,
/// R1, L2, R2, Create, Options, L3, R3, PS, Touchpad and Mute; every other
/// button usage has no logical button.
pub proof fn lemma_button_usage_order(usage_id: u16)
    ensures
        spec_button_kind_for_usage(1) == Some(GenericButtonKind::Cross),
        spec_button_kind_for_usage(2) == Some(GenericButtonKind::Circle),
        spec_button_kind_for_usage(3) == Some(GenericButtonKind::Square),
        spec_button_kind_for_usage(4) == Some(GenericButtonKind::Triangle),
        spec_button_kind_for_usage(5) == Some(GenericButtonKind::L1),
        spec_button_kind_for_usage(6) == Some(GenericButtonKind::R1),
        spec_button_kind_for_usage(7) == Some(GenericButtonKind::L2Button),
        spec_button_kind_for_usage(8) == Some(GenericButtonKind::R2Button),
        spec_button_kind_for_usage(9) == Some(GenericButtonKind::Create),
        spec_button_kind_for_usage(10) == Some(GenericButtonKind::Options),
        spec_button_kind_for_usage(11) == Some(GenericButtonKind::L3),
        spec_button_kind_for_usage(12) == Some(GenericButtonKind::R3),
        spec_button_kind_for_usage(13) == Some(GenericButtonKind::Ps),
        spec_button_kind_for_usage(14) == Some(GenericButtonKind::Touchpad),
        spec_button_kind_for_usage(15) == Some(GenericButtonKind::Mute),
        (usage_id == 0 || usage_id > 15) ==> spec_button_kind_for_usage(usage_id).is_none(),
{
}

/// Setting a logical button changes the button of that name and nothing else.
pub proof fn lemma_set_button_names_one_field(b: Buttons, pressed: bool)
    ensures
        spec_set_button(b, GenericButtonKind::Square, pressed) == (Buttons { square: pressed, ..b }),
        spec_set_button(b, GenericButtonKind::Circle, pressed) == (Buttons { circle: pressed, ..b }),
        spec_set_button(b, GenericButtonKind::Cross, pressed) == (Buttons { cross: pressed, ..b }),
        spec_set_button(b, GenericButtonKind::Triangle, pressed) == (Buttons { triangle: pressed, ..b }),
        spec_set_button(b, GenericButtonKind::L1, pressed) == (Buttons { l1: pressed, ..b }),
        spec_set_button(b, GenericButtonKind::R1, pressed) == (Buttons { r1: pressed, ..b }),
        spec_set_button(b, GenericButtonKind::L2Button, pressed) == (Buttons { l2_button: pressed, ..b }),
        spec_set_button(b, GenericButtonKind::R2Button, pressed) == (Buttons { r2_button: pressed, ..b }),
        spec_set_button(b, GenericButtonKind::Create, pressed) == (Buttons { create: pressed, ..b }),
        spec_set_button(b, GenericButtonKind::Options, pressed) == (Buttons { options: pressed, ..b }),
        spec_set_button(b, GenericButtonKind::L3, pressed) == (Buttons { l3: pressed, ..b }),
        spec_set_button(b, GenericButtonKind::R3, pressed) == (Buttons { r3: pressed, ..b }),
        spec_set_button(b, GenericButtonKind::Ps, pressed) == (Buttons { ps: pressed, ..b }),
        spec_set_button(b, GenericButtonKind::Touchpad, pressed) == (Buttons { touchpad: pressed, ..b }),
        spec_set_button(b, GenericButtonKind::Mute, pressed) == (Buttons { mute: pressed, ..b }),
{
}

} // verus!

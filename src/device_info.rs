use vstd::prelude::*;
use crate::text::{format_hex4, hex4, is_lower_hex4, format_decimal, decimal};

verus! {

/// What happened to a device.
#[derive(Clone, Copy, Debug, PartialEq, Eq, Structural)]
pub enum DeviceEventType {
    Connected,
    Disconnected,
}

/// Platform identity of a device, kept for tracing only.
#[derive(Clone, Debug)]
pub enum DeviceHandle {
    Macos { device_id: String },
}

/// A UTC instant: whole seconds since the Unix epoch and the nanoseconds past them.
#[derive(Clone, Copy, Debug, PartialEq, Eq, Structural)]
pub struct Timestamp {
    pub secs: i64,
    pub nanos: u32,
}

/// One enumerated device.
#[derive(Clone, Debug)]
pub struct UsbDeviceInfo {
    pub device_name: String,
    pub vendor_id: String,
    pub product_id: String,
    pub serial_number: Option<String>,
    pub timestamp: Timestamp,
    pub event_type: DeviceEventType,
    pub device_handle: DeviceHandle,
}

/// What the registry handed back for one named property of a record, after
/// the native reference was released.
#[derive(Clone, Debug)]
pub enum RawProperty {
    /// The record has no such property.
    Absent,
    /// A number; `exact` is false when it does not fit a 16-bit integer.
    Number { value: u16, exact: bool },
    /// A text value.
    Text(String),
    /// A value of another type.
    Other,
}

pub open spec fn spec_read_u16(p: RawProperty) -> Option<u16> {
    match p {
        RawProperty::Number { value, exact } => if exact { Some(value) } else { None },
        _ => None,
    }
}

pub open spec fn spec_read_string(p: RawProperty) -> Option<Seq<char>> {
    match p {
        RawProperty::Text(s) => if s@.len() > 0 { Some(s@) } else { None },
        _ => None,
    }
}

pub open spec fn opt_view(o: Option<String>) -> Option<Seq<char>> {
    match o {
        Some(s) => Some(s@),
        None => None,
    }
}

/// A 16-bit numeric property; absence and every mismatch give `None`.
pub fn read_u16(p: &RawProperty) -> (r: Option<u16>)
    ensures
        r == spec_read_u16(*p),
{
    match p {
        RawProperty::Number { value, exact } => if *exact { Some(*value) } else { None },
        _ => None,
    }
}

/// A text property; absence, a mismatch and an empty text give `None`.
pub fn read_string(p: &RawProperty) -> (r: Option<String>)
    ensures
        opt_view(r) == spec_read_string(*p),
{
    match p {
        RawProperty::Text(s) => if !s.as_str().is_empty() { Some(s.clone()) } else { None },
        _ => None,
    }
}

pub open spec fn id_text(id: Option<u16>) -> Seq<char> {
    match id {
        Some(v) => hex4(v),
        None => seq!['0', '0', '0', '0'],
    }
}

/// An identifier as four lowercase hexadecimal digits, `"0000"` when absent.
pub fn format_id(id: Option<u16>) -> (r: String)
    ensures
        r@ == id_text(id),
        is_lower_hex4(r@),
{
    match id {
        Some(v) => format_hex4(v),
        None => {
            let r = format_hex4(0);
            assert(r@ =~= seq!['0', '0', '0', '0']);
            r
        },
    }
}

pub open spec fn placeholder_name() -> Seq<char> {
    "Unknown USB Device"@
}

/// `e` is the event for a record `device` whose name lookup gave `name` and
/// whose properties read `vendor`, `product` and `serial`; its timestamp is free.
pub open spec fn is_event_of(
    e: UsbDeviceInfo,
    name: Option<String>,
    vendor: RawProperty,
    product: RawProperty,
    serial: RawProperty,
    device: u32,
) -> bool {
    &&& e.device_name@ == match name {
        Some(n) => n@,
        None => placeholder_name(),
    }
    &&& e.vendor_id@ == id_text(spec_read_u16(vendor))
    &&& e.product_id@ == id_text(spec_read_u16(product))
    &&& is_lower_hex4(e.vendor_id@)
    &&& is_lower_hex4(e.product_id@)
    &&& opt_view(e.serial_number) == spec_read_string(serial)
    &&& e.event_type == DeviceEventType::Connected
    &&& e.device_handle matches DeviceHandle::Macos { device_id } && device_id@ == decimal(
        device as nat,
    )
}

/// The event for one record: what its properties hold, with the documented defaults.
pub fn build_event(
    name: Option<String>,
    vendor: &RawProperty,
    product: &RawProperty,
    serial: &RawProperty,
    device: u32,
    timestamp: Timestamp,
) -> (r: UsbDeviceInfo)
    ensures
        is_event_of(r, name, *vendor, *product, *serial, device),
        r.timestamp == timestamp,
{
    let device_name = match name {
        Some(n) => n,
        None => {
            proof {
                reveal_strlit("Unknown USB Device");
            }
            "Unknown USB Device".to_owned()
        },
    };
    UsbDeviceInfo {
        device_name,
        vendor_id: format_id(read_u16(vendor)),
        product_id: format_id(read_u16(product)),
        serial_number: read_string(serial),
        timestamp,
        event_type: DeviceEventType::Connected,
        device_handle: DeviceHandle::Macos { device_id: format_decimal(device) },
    }
}

/// Every event carries four-digit lowercase hexadecimal identifiers and the
/// kind `Connected`; an absent or mismatched identifier reads `"0000"`, and an
/// empty serial number is absent.
pub proof fn lemma_event_fields(
    vendor: RawProperty,
    product: RawProperty,
    serial: RawProperty,
)
    ensures
        is_lower_hex4(id_text(spec_read_u16(vendor))),
        is_lower_hex4(id_text(spec_read_u16(product))),
        !(vendor matches RawProperty::Number { exact, .. } && exact) ==> id_text(
            spec_read_u16(vendor),
        ) == seq!['0', '0', '0', '0'],
        serial matches RawProperty::Text(t) && t@.len() == 0 ==> spec_read_string(serial).is_none(),
{
    crate::text::lemma_zero_digits();
    match spec_read_u16(vendor) {
        Some(v) => crate::text::lemma_hex4_is_lower_hex4(v),
        None => {},
    }
    match spec_read_u16(product) {
        Some(v) => crate::text::lemma_hex4_is_lower_hex4(v),
        None => {},
    }
}

} // verus!

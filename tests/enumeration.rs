use tokio::sync::mpsc;
use usb_watcher::device_info::{
    build_event, format_id, read_string, read_u16, DeviceEventType, DeviceHandle, RawProperty,
    Timestamp, UsbDeviceInfo,
};
use usb_watcher::session::{RegistryAction, RegistryEvent, WatchError};
use usb_watcher::text::{format_decimal, format_hex4, format_signed};
use usb_watcher::watcher::MacosUsbWatcher;

struct FakeRecord {
    id: u32,
    name: Option<String>,
    vendor: RawProperty,
    product: RawProperty,
    serial: RawProperty,
}

struct FakeRegistry {
    filter_ok: bool,
    status: i32,
    records: Vec<FakeRecord>,
    acquired: usize,
    released: usize,
    steps: usize,
}

fn run(watcher: &MacosUsbWatcher, reg: &mut FakeRegistry) -> Result<(), WatchError> {
    let (mut session, mut action) = watcher.start_monitoring();
    let mut next = 0usize;
    loop {
        reg.steps += 1;
        assert!(reg.steps < 1000);
        let event = match action {
            RegistryAction::BuildFilter { class_name } => {
                assert_eq!(class_name, "IOUSBDevice");
                RegistryEvent::FilterBuilt { ok: reg.filter_ok }
            }
            RegistryAction::MatchServices => {
                if reg.status == 0 {
                    reg.acquired += 1;
                }
                RegistryEvent::ServicesMatched { status: reg.status }
            }
            RegistryAction::NextRecord => {
                if next < reg.records.len() {
                    reg.acquired += 1;
                    next += 1;
                    RegistryEvent::NextRecord { device: reg.records[next - 1].id }
                } else {
                    RegistryEvent::NextRecord { device: 0 }
                }
            }
            RegistryAction::ReadRecord { device } => {
                let r = &reg.records[next - 1];
                assert_eq!(r.id, device);
                RegistryEvent::RecordRead {
                    name: r.name.clone(),
                    vendor: r.vendor.clone(),
                    product: r.product.clone(),
                    serial: r.serial.clone(),
                    timestamp: Timestamp { secs: 1_700_000_000 + device as i64, nanos: 0 },
                }
            }
            RegistryAction::ReleaseRecord { .. } | RegistryAction::ReleaseIterator => {
                reg.released += 1;
                RegistryEvent::Released
            }
            RegistryAction::Finish { result } => return result,
        };
        action = session.step(watcher, event);
    }
}

fn registry(filter_ok: bool, status: i32, records: Vec<FakeRecord>) -> FakeRegistry {
    FakeRegistry { filter_ok, status, records, acquired: 0, released: 0, steps: 0 }
}

fn two_records() -> Vec<FakeRecord> {
    vec![
        FakeRecord {
            id: 4099,
            name: Some("Widget".to_string()),
            vendor: RawProperty::Number { value: 0x1234, exact: true },
            product: RawProperty::Number { value: 0x5678, exact: true },
            serial: RawProperty::Text("ABC123".to_string()),
        },
        FakeRecord {
            id: 4100,
            name: None,
            vendor: RawProperty::Absent,
            product: RawProperty::Absent,
            serial: RawProperty::Absent,
        },
    ]
}

fn drain(rx: &mut mpsc::Receiver<UsbDeviceInfo>) -> Vec<UsbDeviceInfo> {
    let mut out = Vec::new();
    while let Ok(e) = rx.try_recv() {
        out.push(e);
    }
    out
}

fn is_lower_hex4(s: &str) -> bool {
    s.len() == 4 && s.chars().all(|c| c.is_ascii_digit() || ('a'..='f').contains(&c))
}

#[test]
fn two_record_registry_yields_two_events_in_order() {
    let (tx, mut rx) = mpsc::channel(16);
    let watcher = MacosUsbWatcher::new(tx);
    let mut reg = registry(true, 0, two_records());
    assert_eq!(run(&watcher, &mut reg), Ok(()));
    let events = drain(&mut rx);
    assert_eq!(events.len(), 2);
    assert_eq!(events[0].device_name, "Widget");
    assert_eq!(events[0].vendor_id, "1234");
    assert_eq!(events[0].product_id, "5678");
    assert_eq!(events[0].serial_number, Some("ABC123".to_string()));
    assert_eq!(events[0].event_type, DeviceEventType::Connected);
    assert_eq!(events[1].device_name, "Unknown USB Device");
    assert_eq!(events[1].vendor_id, "0000");
    assert_eq!(events[1].product_id, "0000");
    assert_eq!(events[1].serial_number, None);
    assert_eq!(events[1].event_type, DeviceEventType::Connected);
    let DeviceHandle::Macos { device_id } = &events[0].device_handle;
    assert_eq!(device_id, "4099");
    assert_eq!(events[0].timestamp, Timestamp { secs: 1_700_004_099, nanos: 0 });
    assert_eq!(events[1].timestamp, Timestamp { secs: 1_700_004_100, nanos: 0 });
    assert_eq!(reg.acquired, 3);
    assert_eq!(reg.released, 3);
}

#[test]
fn closed_channel_drops_every_event_and_completes() {
    let (tx, rx) = mpsc::channel(1);
    drop(rx);
    let watcher = MacosUsbWatcher::new(tx);
    let mut reg = registry(true, 0, two_records());
    assert_eq!(run(&watcher, &mut reg), Ok(()));
    assert_eq!(reg.acquired, reg.released);
}

#[test]
fn full_channel_drops_events_without_blocking() {
    let (tx, mut rx) = mpsc::channel(1);
    let watcher = MacosUsbWatcher::new(tx);
    let mut reg = registry(true, 0, two_records());
    assert_eq!(run(&watcher, &mut reg), Ok(()));
    let events = drain(&mut rx);
    assert_eq!(events.len(), 1);
    assert_eq!(events[0].device_name, "Widget");
}

#[test]
fn lookup_failure_carries_status_and_produces_nothing() {
    let (tx, mut rx) = mpsc::channel(16);
    let watcher = MacosUsbWatcher::new(tx);
    let mut reg = registry(true, -536870212, two_records());
    assert_eq!(
        run(&watcher, &mut reg),
        Err(WatchError::EnumerationError { status_code: -536870212 })
    );
    assert!(drain(&mut rx).is_empty());
    assert_eq!(reg.acquired, 0);
    assert_eq!(reg.released, 0);
}

#[test]
fn filter_failure_is_initialization_error() {
    let (tx, mut rx) = mpsc::channel(16);
    let watcher = MacosUsbWatcher::new(tx);
    let mut reg = registry(false, 0, two_records());
    assert_eq!(run(&watcher, &mut reg), Err(WatchError::InitializationError));
    assert!(drain(&mut rx).is_empty());
    assert_eq!(reg.acquired, 0);
    assert_eq!(reg.released, 0);
}

#[test]
fn empty_registry_releases_iterator() {
    let (tx, mut rx) = mpsc::channel(16);
    let watcher = MacosUsbWatcher::new(tx);
    let mut reg = registry(true, 0, Vec::new());
    assert_eq!(run(&watcher, &mut reg), Ok(()));
    assert!(drain(&mut rx).is_empty());
    assert_eq!(reg.acquired, 1);
    assert_eq!(reg.released, 1);
}

#[test]
fn mismatched_properties_fall_back_to_defaults() {
    let (tx, mut rx) = mpsc::channel(16);
    let watcher = MacosUsbWatcher::new(tx);
    let records = vec![FakeRecord {
        id: 7,
        name: Some("Hub".to_string()),
        vendor: RawProperty::Text("1234".to_string()),
        product: RawProperty::Number { value: 0xffff, exact: false },
        serial: RawProperty::Text(String::new()),
    }];
    let mut reg = registry(true, 0, records);
    assert_eq!(run(&watcher, &mut reg), Ok(()));
    let events = drain(&mut rx);
    assert_eq!(events.len(), 1);
    assert_eq!(events[0].vendor_id, "0000");
    assert_eq!(events[0].product_id, "0000");
    assert_eq!(events[0].serial_number, None);
    assert_eq!(reg.acquired, reg.released);
}

#[test]
fn new_watcher_publishes_on_the_given_channel() {
    let (tx, mut rx) = mpsc::channel(4);
    let watcher = MacosUsbWatcher::new(tx);
    assert!(rx.try_recv().is_err());
    let e = build_event(
        Some("Pad".to_string()),
        &RawProperty::Absent,
        &RawProperty::Absent,
        &RawProperty::Absent,
        1,
        Timestamp { secs: 0, nanos: 0 },
    );
    assert!(watcher.publish(e));
    assert_eq!(rx.try_recv().unwrap().device_name, "Pad");
}

#[test]
fn produced_ids_are_four_lowercase_hex_digits() {
    for v in [0u16, 1, 0xa, 0xabc, 0x1234, 0xbeef, 0xffff] {
        let s = format_id(Some(v));
        assert!(is_lower_hex4(&s));
        assert_eq!(s, format!("{:04x}", v));
    }
    assert_eq!(format_id(None), "0000");
    assert_eq!(format_hex4(0xBEEF), "beef");
}

#[test]
fn property_reads() {
    assert_eq!(read_u16(&RawProperty::Number { value: 0x5678, exact: true }), Some(0x5678));
    assert_eq!(read_u16(&RawProperty::Number { value: 3, exact: false }), None);
    assert_eq!(read_u16(&RawProperty::Absent), None);
    assert_eq!(read_u16(&RawProperty::Other), None);
    assert_eq!(read_string(&RawProperty::Text("ABC123".to_string())), Some("ABC123".to_string()));
    assert_eq!(read_string(&RawProperty::Text(String::new())), None);
    assert_eq!(read_string(&RawProperty::Number { value: 1, exact: true }), None);
    assert_eq!(read_string(&RawProperty::Other), None);
}

#[test]
fn built_event_is_connected_with_given_timestamp() {
    let ts = Timestamp { secs: 1_700_000_000, nanos: 5 };
    let e = build_event(
        None,
        &RawProperty::Number { value: 0x00ab, exact: true },
        &RawProperty::Absent,
        &RawProperty::Text("S1".to_string()),
        123456,
        ts,
    );
    assert_eq!(e.device_name, "Unknown USB Device");
    assert_eq!(e.vendor_id, "00ab");
    assert_eq!(e.product_id, "0000");
    assert_eq!(e.serial_number, Some("S1".to_string()));
    assert_eq!(e.timestamp, ts);
    assert_eq!(e.event_type, DeviceEventType::Connected);
    let DeviceHandle::Macos { device_id } = &e.device_handle;
    assert_eq!(device_id, "123456");
}

#[test]
fn error_messages() {
    assert_eq!(
        WatchError::InitializationError.message(),
        "Failed to create matching dictionary for IOUSBDevice"
    );
    assert_eq!(
        WatchError::EnumerationError { status_code: -536870212 }.message(),
        "IOServiceGetMatchingServices failed: -536870212"
    );
    assert_eq!(
        WatchError::EnumerationError { status_code: 5 }.message(),
        "IOServiceGetMatchingServices failed: 5"
    );
}

#[test]
fn decimal_renderings() {
    for n in [0u32, 7, 9, 10, 99, 100, 4099, 123456, u32::MAX] {
        assert_eq!(format_decimal(n), n.to_string());
    }
    for n in [0i32, 5, -1, -10, -536870212, i32::MIN, i32::MAX] {
        assert_eq!(format_signed(n), n.to_string());
    }
}

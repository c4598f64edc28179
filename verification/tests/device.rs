use ble_session::device::{
    has_real_name, list_device, resolve_name, Advertisement, BluetoothDevice, Sighting,
};
use ble_session::error::{headline, BleError, ErrorKind};
use ble_session::protocol::{
    fail_with, Reply, POST_DISCONNECT_SETTLE_MS, PRE_SCAN_SETTLE_MS, RESCAN_WINDOW_MS,
};

fn advert(name: Option<&str>, rssi: Option<i16>) -> Advertisement {
    Advertisement { local_name: name.map(|n| n.to_string()), rssi }
}

#[test]
fn real_names_are_non_empty_and_not_the_placeholder() {
    assert!(has_real_name(&"ESP32-X".to_string()));
    assert!(has_real_name(&"unknown".to_string()));
    assert!(has_real_name(&"Unknown ".to_string()));
    assert!(has_real_name(&" ".to_string()));
    assert!(!has_real_name(&"".to_string()));
    assert!(!has_real_name(&"Unknown".to_string()));
}

#[test]
fn name_defaults_to_placeholder() {
    assert_eq!(resolve_name(None), "Unknown");
    assert_eq!(resolve_name(Some(advert(None, Some(-1)))), "Unknown");
    assert_eq!(resolve_name(Some(advert(Some("Pulse"), None))), "Pulse");
    assert_eq!(resolve_name(Some(advert(Some(""), None))), "");
}

#[test]
fn listed_device_copies_identity_and_signal() {
    let sighting = Sighting { id: "id-7".to_string(), address: "AA:BB".to_string() };
    assert_eq!(
        list_device(&sighting, Some(advert(Some("Pulse"), Some(-61)))),
        Some(BluetoothDevice {
            id: "id-7".to_string(),
            name: "Pulse".to_string(),
            address: "AA:BB".to_string(),
            rssi: Some(-61),
        })
    );
    assert_eq!(list_device(&sighting, Some(advert(Some("Unknown"), Some(-61)))), None);
    assert_eq!(list_device(&sighting, Some(advert(None, None))), None);
    assert_eq!(list_device(&sighting, None), None);
}

#[test]
fn settle_delays_have_their_values() {
    assert_eq!(PRE_SCAN_SETTLE_MS, 100);
    assert_eq!(RESCAN_WINDOW_MS, 500);
    assert_eq!(POST_DISCONNECT_SETTLE_MS, 1000);
}

#[test]
fn message_is_headline_then_detail() {
    assert_eq!(BleError::plain(ErrorKind::DeviceNotFound).message(), "Device not found");
    assert_eq!(
        BleError::with_detail(ErrorKind::ReadError, "x".to_string()).message(),
        "Failed to read data: x"
    );
    assert_eq!(
        BleError::with_detail(ErrorKind::ReadError, String::new()).message(),
        "Failed to read data"
    );
    assert_eq!(headline(ErrorKind::NotInitialized), "Bluetooth is not initialized");
}

#[test]
fn wrong_shaped_reply_has_a_fixed_description() {
    let error = fail_with(ErrorKind::ConnectError, Reply::AdapterCount(2));
    assert_eq!(error, BleError::with_detail(ErrorKind::ConnectError, "unexpected reply".to_string()));
    let error = fail_with(ErrorKind::ConnectError, Reply::Failed("why".to_string()));
    assert_eq!(error.detail, "why");
}

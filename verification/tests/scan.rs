use ble_session::device::{Advertisement, BluetoothDevice, Sighting};
use ble_session::error::{BleError, ErrorKind};
use ble_session::protocol::{Reply, Request, Turn};
use ble_session::scan::{scan_bluetooth_devices, ScanTurn};
use ble_session::session::BluetoothConnection;

type Session = BluetoothConnection<u32, u32>;

fn ready_session() -> Session {
    let mut session = Session::new();
    session.install_adapter(1);
    session
}

fn sighting(id: &str) -> Sighting {
    Sighting { id: id.to_string(), address: format!("AA:BB:CC:00:00:{}", id) }
}

fn named(name: &str, rssi: Option<i16>) -> Reply {
    Reply::Properties(Some(Advertisement { local_name: Some(name.to_string()), rssi }))
}

/// Answers the scan with `replies` in turn and records what it asked for.
fn drive_scan(
    mut turn: ScanTurn,
    replies: Vec<Reply>,
) -> (Vec<Request>, Option<Result<Vec<BluetoothDevice>, BleError>>) {
    let mut asked = Vec::new();
    let mut replies = replies.into_iter();
    loop {
        match turn {
            Turn::Finished(result) => return (asked, Some(result)),
            Turn::Continue(op, request) => {
                asked.push(request);
                match replies.next() {
                    Some(reply) => turn = op.resume(reply),
                    None => return (asked, None),
                }
            }
        }
    }
}

fn opening(sightings: Vec<Sighting>) -> Vec<Reply> {
    vec![
        Reply::Done,
        Reply::Done,
        Reply::Done,
        Reply::Done,
        Reply::Done,
        Reply::Peripherals(sightings),
    ]
}

#[test]
fn scan_before_init_is_not_initialized() {
    let session = Session::new();
    match scan_bluetooth_devices(&session, 5) {
        Turn::Finished(Err(error)) => {
            assert_eq!(error.kind, ErrorKind::NotInitialized);
            assert_eq!(error.message(), "Bluetooth is not initialized");
        }
        other => panic!("expected an immediate failure, got {:?}", other),
    }
}

#[test]
fn scan_keeps_only_devices_with_a_real_name() {
    let session = ready_session();
    let mut replies = opening(vec![sighting("1"), sighting("2"), sighting("3"), sighting("4")]);
    replies.push(named("ESP32-X", Some(-40)));
    replies.push(named("", Some(-50)));
    replies.push(named("Unknown", None));
    replies.push(named("MyDevice", None));
    let (_, result) = drive_scan(scan_bluetooth_devices(&session, 3), replies);
    let devices = result.expect("the scan ends").expect("the scan succeeds");
    assert_eq!(
        devices,
        vec![
            BluetoothDevice {
                id: "1".to_string(),
                name: "ESP32-X".to_string(),
                address: "AA:BB:CC:00:00:1".to_string(),
                rssi: Some(-40),
            },
            BluetoothDevice {
                id: "4".to_string(),
                name: "MyDevice".to_string(),
                address: "AA:BB:CC:00:00:4".to_string(),
                rssi: None,
            },
        ]
    );
}

#[test]
fn scan_follows_the_protocol_in_order() {
    let session = ready_session();
    let mut replies = opening(vec![sighting("1"), sighting("2")]);
    replies.push(named("One", None));
    replies.push(named("Two", None));
    let (asked, result) = drive_scan(scan_bluetooth_devices(&session, 7), replies);
    assert_eq!(
        asked,
        vec![
            Request::StopScan,
            Request::Settle { millis: 100 },
            Request::StartScan,
            Request::Listen { seconds: 7 },
            Request::StopScan,
            Request::ListPeripherals,
            Request::FetchProperties { candidate: 0 },
            Request::FetchProperties { candidate: 1 },
        ]
    );
    assert_eq!(result.unwrap().unwrap().len(), 2);
}

#[test]
fn scan_ignores_a_failed_first_stop() {
    let session = ready_session();
    let replies = vec![
        Reply::Failed("no scan was running".to_string()),
        Reply::Done,
        Reply::Done,
        Reply::Done,
        Reply::Done,
        Reply::Peripherals(vec![]),
    ];
    let (_, result) = drive_scan(scan_bluetooth_devices(&session, 1), replies);
    assert_eq!(result, Some(Ok(vec![])));
}

#[test]
fn scan_start_failure_is_scan_start_error() {
    let session = ready_session();
    let replies = vec![Reply::Done, Reply::Done, Reply::Failed("radio off".to_string())];
    let (asked, result) = drive_scan(scan_bluetooth_devices(&session, 1), replies);
    let error = result.unwrap().unwrap_err();
    assert_eq!(error.kind, ErrorKind::ScanStartError);
    assert_eq!(error.detail, "radio off");
    assert_eq!(error.message(), "Failed to start scanning: radio off");
    assert_eq!(asked.len(), 3);
}

#[test]
fn scan_stop_failure_is_scan_stop_error() {
    let session = ready_session();
    let replies = vec![
        Reply::Done,
        Reply::Done,
        Reply::Done,
        Reply::Done,
        Reply::Failed("busy".to_string()),
    ];
    let (_, result) = drive_scan(scan_bluetooth_devices(&session, 1), replies);
    let error = result.unwrap().unwrap_err();
    assert_eq!(error.kind, ErrorKind::ScanStopError);
    assert_eq!(error.message(), "Failed to stop scanning: busy");
}

#[test]
fn scan_enumeration_failure_is_peripheral_list_error() {
    let session = ready_session();
    let replies = vec![
        Reply::Done,
        Reply::Done,
        Reply::Done,
        Reply::Done,
        Reply::Done,
        Reply::Failed("adapter gone".to_string()),
    ];
    let (_, result) = drive_scan(scan_bluetooth_devices(&session, 1), replies);
    let error = result.unwrap().unwrap_err();
    assert_eq!(error.kind, ErrorKind::PeripheralListError);
    assert_eq!(error.message(), "Failed to list devices: adapter gone");
}

#[test]
fn scan_aborts_on_a_single_failed_lookup() {
    let session = ready_session();
    let mut replies = opening(vec![sighting("1"), sighting("2"), sighting("3")]);
    replies.push(named("One", None));
    replies.push(Reply::Failed("timeout".to_string()));
    replies.push(named("Three", None));
    let (asked, result) = drive_scan(scan_bluetooth_devices(&session, 1), replies);
    let error = result.unwrap().unwrap_err();
    assert_eq!(error.kind, ErrorKind::PropertiesError);
    assert_eq!(error.detail, "timeout");
    assert_eq!(asked.last(), Some(&Request::FetchProperties { candidate: 1 }));
}

#[test]
fn scan_skips_devices_without_properties_or_name() {
    let session = ready_session();
    let mut replies = opening(vec![sighting("1"), sighting("2"), sighting("3")]);
    replies.push(Reply::Properties(None));
    replies.push(Reply::Properties(Some(Advertisement { local_name: None, rssi: Some(-70) })));
    replies.push(named("Kept", Some(-10)));
    let (_, result) = drive_scan(scan_bluetooth_devices(&session, 1), replies);
    let devices = result.unwrap().unwrap();
    assert_eq!(devices.len(), 1);
    assert_eq!(devices[0].id, "3");
    assert_eq!(devices[0].name, "Kept");
    assert_eq!(devices[0].rssi, Some(-10));
}

#[test]
fn scan_with_no_peripherals_reports_nothing() {
    let session = ready_session();
    let (asked, result) = drive_scan(scan_bluetooth_devices(&session, 0), opening(vec![]));
    assert_eq!(result, Some(Ok(vec![])));
    assert_eq!(asked.len(), 6);
    assert_eq!(asked[3], Request::Listen { seconds: 0 });
}

#[test]
fn scan_wrong_shaped_reply_counts_as_failure() {
    let session = ready_session();
    let replies = vec![Reply::Done, Reply::Done, Reply::Connected(true)];
    let (_, result) = drive_scan(scan_bluetooth_devices(&session, 1), replies);
    let error = result.unwrap().unwrap_err();
    assert_eq!(error.kind, ErrorKind::ScanStartError);
    assert_eq!(error.detail, "unexpected reply");
}

#[test]
fn scan_keeps_platform_order_and_duplicates() {
    let session = ready_session();
    let mut replies = opening(vec![sighting("9"), sighting("2"), sighting("9")]);
    replies.push(named("Zed", None));
    replies.push(named("Alpha", None));
    replies.push(named("Zed", None));
    let (_, result) = drive_scan(scan_bluetooth_devices(&session, 1), replies);
    let ids: Vec<String> = result.unwrap().unwrap().into_iter().map(|d| d.id).collect();
    assert_eq!(ids, vec!["9".to_string(), "2".to_string(), "9".to_string()]);
}

#[test]
fn scan_leaves_the_session_untouched() {
    let mut session = ready_session();
    session.attach(7, &vec![]);
    let mut replies = opening(vec![sighting("1")]);
    replies.push(named("One", None));
    let (_, result) = drive_scan(scan_bluetooth_devices(&session, 1), replies);
    assert!(result.unwrap().is_ok());
    assert_eq!(session.adapter(), Some(&1));
    assert_eq!(session.peripheral(), Some(&7));
}

#[test]
fn two_scans_on_one_session_do_not_interfere() {
    let session = ready_session();
    let mut first = scan_bluetooth_devices(&session, 1);
    let mut second = scan_bluetooth_devices(&session, 2);
    let mut first_replies = opening(vec![sighting("1")]);
    first_replies.push(named("One", None));
    let mut second_replies = opening(vec![sighting("2")]);
    second_replies.push(named("Two", None));
    let mut asked = Vec::new();
    for (a, b) in first_replies.into_iter().zip(second_replies) {
        first = match first {
            Turn::Continue(op, request) => {
                asked.push(request);
                op.resume(a)
            }
            done => done,
        };
        second = match second {
            Turn::Continue(op, request) => {
                asked.push(request);
                op.resume(b)
            }
            done => done,
        };
    }
    // Each scan asks for its own stop before its own start.
    assert_eq!(asked[0], Request::StopScan);
    assert_eq!(asked[1], Request::StopScan);
    assert_eq!(asked[4], Request::StartScan);
    assert_eq!(asked[6], Request::Listen { seconds: 1 });
    assert_eq!(asked[7], Request::Listen { seconds: 2 });
    match (first, second) {
        (Turn::Finished(Ok(one)), Turn::Finished(Ok(two))) => {
            assert_eq!(one[0].name, "One");
            assert_eq!(two[0].name, "Two");
        }
        other => panic!("both scans should have ended well, got {:?}", other),
    }
}

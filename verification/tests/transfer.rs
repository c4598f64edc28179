use ble_session::error::ErrorKind;
use ble_session::gatt::{
    contains_uuid, dedupe_by_uuid, describe, find_by_uuid, find_serving, join, Access,
    Capabilities, Characteristic,
};
use ble_session::session::BluetoothConnection;
use ble_session::status::get_characteristics;
use ble_session::transfer::{
    choose_characteristic, plan_read, plan_write, read_bluetooth, resolve_target, write_bluetooth,
    ReadPlan, Target, WriteMode, WritePlan,
};

type Bus = BluetoothConnection<(), u8>;

const NONE: Capabilities = Capabilities {
    read: false,
    write: false,
    write_without_response: false,
    notify: false,
    indicate: false,
};

const A: Characteristic = Characteristic {
    uuid: 0x0000_2a37_0000_1000_8000_0080_5f9b_34fb,
    capabilities: Capabilities { read: true, ..NONE },
};

const B: Characteristic = Characteristic {
    uuid: 0x6e40_0002_b5a3_f393_e0a9_e50e_24dc_ca9e,
    capabilities: Capabilities { write: true, ..NONE },
};

const C: Characteristic = Characteristic {
    uuid: 0x6e40_0003_b5a3_f393_e0a9_e50e_24dc_ca9e,
    capabilities: Capabilities { read: true, write: true, ..NONE },
};

fn connected(characteristics: Vec<Characteristic>) -> Bus {
    let mut bus = Bus::new();
    bus.attach(1, &characteristics);
    bus
}

#[test]
fn auto_select_picks_first_match_in_stored_order() {
    let bus = connected(vec![A, B, C]);
    let read = read_bluetooth(&bus, None).unwrap();
    assert_eq!(read.characteristic, A);
    let write = write_bluetooth(&bus, &"hi".to_string(), None).unwrap();
    assert_eq!(write.characteristic, B);
}

#[test]
fn auto_select_accepts_notify_for_reads_and_commands_for_writes() {
    let notifying = Characteristic { uuid: 1, capabilities: Capabilities { notify: true, ..NONE } };
    let command = Characteristic {
        uuid: 2,
        capabilities: Capabilities { write_without_response: true, ..NONE },
    };
    let indicating =
        Characteristic { uuid: 3, capabilities: Capabilities { indicate: true, ..NONE } };
    let bus = connected(vec![indicating, command, notifying, A, B]);
    assert_eq!(read_bluetooth(&bus, None).unwrap().characteristic, notifying);
    assert_eq!(write_bluetooth(&bus, &String::new(), None).unwrap().characteristic, command);
}

#[test]
fn write_with_unknown_uuid_never_falls_back() {
    let bus = connected(vec![A, B, C]);
    let unknown = "12345678-1234-5678-1234-567812345678".to_string();
    let error = write_bluetooth(&bus, &"x".to_string(), Some(unknown.clone())).unwrap_err();
    assert_eq!(error.kind, ErrorKind::CharacteristicNotFound);
    assert_eq!(error.message(), "Characteristic not found");
    let error = read_bluetooth(&bus, Some(unknown)).unwrap_err();
    assert_eq!(error.kind, ErrorKind::CharacteristicNotFound);
}

#[test]
fn explicit_uuid_selects_regardless_of_capabilities() {
    let bus = connected(vec![A, B, C]);
    let text = "00002a37-0000-1000-8000-00805f9b34fb".to_string();
    let plan = write_bluetooth(&bus, &"x".to_string(), Some(text.clone())).unwrap();
    assert_eq!(plan.characteristic, A);
    let plan = read_bluetooth(&bus, Some("6E400002-B5A3-F393-E0A9-E50E24DCCA9E".to_string()));
    assert_eq!(plan.unwrap().characteristic, B);
}

#[test]
fn uuid_text_is_parsed_in_every_accepted_form() {
    let value = 0x6e40_0003_b5a3_f393_e0a9_e50e_24dc_ca9e_u128;
    for text in [
        "6e400003-b5a3-f393-e0a9-e50e24dcca9e",
        "6e400003b5a3f393e0a9e50e24dcca9e",
        "{6e400003-b5a3-f393-e0a9-e50e24dcca9e}",
        "urn:uuid:6e400003-b5a3-f393-e0a9-e50e24dcca9e",
    ] {
        assert_eq!(resolve_target(Some(text.to_string())), Target::Uuid(value));
    }
    assert_eq!(resolve_target(None), Target::Auto);
}

#[test]
fn invalid_uuid_text_is_invalid_uuid() {
    let bus = connected(vec![A, B, C]);
    let error = write_bluetooth(&bus, &"x".to_string(), Some("abc".to_string())).unwrap_err();
    assert_eq!(error.kind, ErrorKind::InvalidUuid);
    assert_eq!(error.detail, "invalid length: found 3");
    assert_eq!(error.message(), "Invalid UUID: invalid length: found 3");
    let error = read_bluetooth(&bus, Some(String::new())).unwrap_err();
    assert_eq!(error.kind, ErrorKind::InvalidUuid);
    match resolve_target(Some("not-a-uuid".to_string())) {
        Target::Invalid(detail) => assert!(!detail.is_empty()),
        other => panic!("expected an invalid target, got {:?}", other),
    }
}

#[test]
fn transfers_need_a_connection() {
    let bus = Bus::new();
    let error = write_bluetooth(&bus, &"x".to_string(), None).unwrap_err();
    assert_eq!(error.kind, ErrorKind::NotConnected);
    assert_eq!(error.message(), "No active connection");
    assert_eq!(read_bluetooth(&bus, None).unwrap_err().kind, ErrorKind::NotConnected);
    // The missing connection is reported before the text is looked at.
    let error = write_bluetooth(&bus, &"x".to_string(), Some("abc".to_string())).unwrap_err();
    assert_eq!(error.kind, ErrorKind::NotConnected);
}

#[test]
fn no_writable_characteristic() {
    let bus = connected(vec![A]);
    let error = write_bluetooth(&bus, &"x".to_string(), None).unwrap_err();
    assert_eq!(error.kind, ErrorKind::NoWritableCharacteristic);
    assert_eq!(error.message(), "No writable characteristic found");
    let bus = connected(vec![]);
    let error = plan_write(&bus, &"x".to_string(), Target::Auto).unwrap_err();
    assert_eq!(error.kind, ErrorKind::NoWritableCharacteristic);
}

#[test]
fn no_readable_characteristic() {
    let bus = connected(vec![B]);
    let error = read_bluetooth(&bus, None).unwrap_err();
    assert_eq!(error.kind, ErrorKind::NoReadableCharacteristic);
    assert_eq!(error.message(), "No readable characteristic found");
    assert_eq!(
        plan_read(&connected(vec![]), Target::Auto).unwrap_err().kind,
        ErrorKind::NoReadableCharacteristic
    );
}

#[test]
fn write_count_is_the_byte_length() {
    let bus = connected(vec![B]);
    for (text, bytes) in [("", 0usize), ("hello", 5), ("héllo", 6), ("日本語", 9), ("🦀", 4)] {
        let plan = write_bluetooth(&bus, &text.to_string(), None).unwrap();
        assert_eq!(plan.payload, text.as_bytes().to_vec());
        assert_eq!(plan.mode, WriteMode::WithoutResponse);
        assert_eq!(plan.finish(Ok(())), Ok(bytes));
    }
}

#[test]
fn write_failure_is_write_error() {
    let plan = WritePlan {
        characteristic: B,
        payload: vec![1, 2, 3],
        mode: WriteMode::WithoutResponse,
    };
    let error = plan.finish(Err("rejected".to_string())).unwrap_err();
    assert_eq!(error.kind, ErrorKind::WriteError);
    assert_eq!(error.message(), "Failed to write data: rejected");
}

#[test]
fn read_decodes_text_leniently() {
    let plan = ReadPlan { characteristic: A };
    assert_eq!(plan.finish(Ok(b"21.5 C".to_vec())), Ok("21.5 C".to_string()));
    assert_eq!(plan.finish(Ok("héllo 🦀".as_bytes().to_vec())), Ok("héllo 🦀".to_string()));
    assert_eq!(plan.finish(Ok(vec![])), Ok(String::new()));
    assert_eq!(plan.finish(Ok(vec![b'a', 0xff, b'b'])), Ok("a\u{fffd}b".to_string()));
    assert_eq!(plan.finish(Ok(vec![0xe2, 0x82])), Ok("\u{fffd}".to_string()));
}

#[test]
fn read_failure_is_read_error() {
    let plan = ReadPlan { characteristic: A };
    let error = plan.finish(Err("not permitted".to_string())).unwrap_err();
    assert_eq!(error.kind, ErrorKind::ReadError);
    assert_eq!(error.message(), "Failed to read data: not permitted");
}

#[test]
fn choose_characteristic_reports_each_outcome() {
    let bus = connected(vec![A, B]);
    assert_eq!(choose_characteristic(&bus, Target::Uuid(B.uuid), Access::Read), Ok(B));
    assert_eq!(choose_characteristic(&bus, Target::Auto, Access::Write), Ok(B));
    let error = choose_characteristic(&bus, Target::Invalid("bad".to_string()), Access::Read);
    assert_eq!(error.unwrap_err().detail, "bad");
    let error = choose_characteristic(&bus, Target::Uuid(99), Access::Write).unwrap_err();
    assert_eq!(error.kind, ErrorKind::CharacteristicNotFound);
}

#[test]
fn listing_formats_uuid_and_capabilities() {
    let all = Characteristic {
        uuid: 0xa1a2_a3a4_b1b2_c1c2_d1d2_d3d4_d5d6_d7d8,
        capabilities: Capabilities {
            read: true,
            write: true,
            write_without_response: true,
            notify: true,
            indicate: true,
        },
    };
    assert_eq!(
        describe(&all),
        "UUID: a1a2a3a4-b1b2-c1c2-d1d2-d3d4d5d6d7d8 | Properties: READ, WRITE, NOTIFY, INDICATE"
    );
    assert_eq!(
        describe(&A),
        "UUID: 00002a37-0000-1000-8000-00805f9b34fb | Properties: READ"
    );
    let command_only = Characteristic {
        uuid: 0,
        capabilities: Capabilities { write_without_response: true, ..NONE },
    };
    assert_eq!(
        describe(&command_only),
        "UUID: 00000000-0000-0000-0000-000000000000 | Properties: "
    );
    let mixed = Characteristic {
        uuid: u128::MAX,
        capabilities: Capabilities { write: true, indicate: true, ..NONE },
    };
    assert_eq!(
        describe(&mixed),
        "UUID: ffffffff-ffff-ffff-ffff-ffffffffffff | Properties: WRITE, INDICATE"
    );
}

#[test]
fn listing_follows_stored_order() {
    let bus = connected(vec![C, A]);
    assert_eq!(
        get_characteristics(&bus),
        vec![
            "UUID: 6e400003-b5a3-f393-e0a9-e50e24dcca9e | Properties: READ, WRITE".to_string(),
            "UUID: 00002a37-0000-1000-8000-00805f9b34fb | Properties: READ".to_string(),
        ]
    );
    assert!(get_characteristics(&Bus::new()).is_empty());
}

#[test]
fn join_places_separator_between_parts() {
    assert_eq!(join(&vec![], ", "), "");
    assert_eq!(join(&vec!["a"], ", "), "a");
    assert_eq!(join(&vec!["a", "b", "c"], "-"), "a-b-c");
}

#[test]
fn dedupe_keeps_first_of_each_uuid_in_order() {
    let a2 = Characteristic { uuid: A.uuid, capabilities: Capabilities { write: true, ..NONE } };
    assert_eq!(dedupe_by_uuid(&vec![C, A, a2, B, C]), vec![C, A, B]);
    assert_eq!(dedupe_by_uuid(&vec![]), vec![]);
    assert!(contains_uuid(&vec![A, B], B.uuid));
    assert!(!contains_uuid(&vec![A, B], C.uuid));
}

#[test]
fn find_returns_first_match() {
    let a2 = Characteristic { uuid: A.uuid, capabilities: Capabilities { write: true, ..NONE } };
    assert_eq!(find_by_uuid(&vec![B, A, a2], A.uuid), Some(A));
    assert_eq!(find_by_uuid(&vec![B], A.uuid), None);
    assert_eq!(find_serving(&vec![A, a2, B], Access::Write), Some(a2));
    assert_eq!(find_serving(&vec![B], Access::Read), None);
    assert!(C.can_serve(Access::Read) && C.can_serve(Access::Write));
}

#[test]
fn write_is_sent_without_response_even_where_responses_are_supported() {
    let bus = connected(vec![B, C]);
    let plan = write_bluetooth(&bus, &"ping".to_string(), None).unwrap();
    assert!(plan.characteristic.capabilities.write);
    assert!(!plan.characteristic.capabilities.write_without_response);
    assert_eq!(plan.mode, WriteMode::WithoutResponse);
    assert_eq!(plan.payload, vec![b'p', b'i', b'n', b'g']);
}

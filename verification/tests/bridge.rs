use blue_serial::address::DeviceAddress;
use blue_serial::connect::{connect_step, serial_client_profile, ConnectAction, ConnectEvent, ProfileRole, RETRY_DELAY_MS};
use blue_serial::discovery::{
    finish_discovery, list_entries, name_lookup, select_adapter_name, DeviceCollector,
    DiscoveredDevice, DiscoveryEnd, DiscoveryEvent,
};
use blue_serial::reader::{read_step, ReadAction, ReadOutcome, READ_BUFFER_SIZE, READ_PAUSE_MS};
use blue_serial::script::{
    adapter_label, address_argument, port_label, port_method, script_path, PortCall,
};

fn addr(last: u8) -> DeviceAddress {
    DeviceAddress::new([0x98, 0xd3, 0x31, 0xf5, 0x12, last])
}

fn device(name: &str, last: u8) -> DiscoveredDevice {
    DiscoveredDevice { name: name.to_string(), address: addr(last) }
}

#[test]
fn address_from_six_bytes() {
    let a = DeviceAddress::from_bytes(&[1, 2, 3, 4, 5, 6]).unwrap();
    assert_eq!(a.octets, [1, 2, 3, 4, 5, 6]);
}

#[test]
fn address_needs_exactly_six_bytes() {
    assert!(DeviceAddress::from_bytes(&[1, 2, 3, 4, 5]).is_none());
    assert!(DeviceAddress::from_bytes(&[1, 2, 3, 4, 5, 6, 7]).is_none());
    assert!(DeviceAddress::from_bytes(&[]).is_none());
}

#[test]
fn address_bytes_roundtrip() {
    let a = addr(0x7e);
    let bytes = a.to_bytes();
    assert_eq!(bytes, vec![0x98, 0xd3, 0x31, 0xf5, 0x12, 0x7e]);
    let back = DeviceAddress::from_bytes(&bytes).unwrap();
    assert!(back.same_as(&a));
    assert_eq!(back.octets, a.octets);
}

#[test]
fn address_comparison() {
    assert!(addr(1).same_as(&addr(1)));
    assert!(!addr(1).same_as(&addr(2)));
    let first_differs = DeviceAddress::new([0x99, 0xd3, 0x31, 0xf5, 0x12, 1]);
    assert!(!first_differs.same_as(&addr(1)));
}

#[test]
fn adapter_first_name_chosen() {
    let names = vec!["hci0".to_string(), "hci1".to_string()];
    assert_eq!(select_adapter_name(&names).unwrap(), "hci0");
}

#[test]
fn adapter_missing_is_not_found() {
    let err = select_adapter_name(&vec![]).unwrap_err();
    assert_eq!(err.message, "No Adapters Found");
}

#[test]
fn only_added_devices_are_looked_up() {
    assert_eq!(name_lookup(&DiscoveryEvent::DeviceAdded(addr(3))).unwrap().octets, addr(3).octets);
    assert!(name_lookup(&DiscoveryEvent::DeviceRemoved(addr(3))).is_none());
    assert!(name_lookup(&DiscoveryEvent::PropertyChanged).is_none());
}

#[test]
fn collector_keeps_named_devices_in_order() {
    let mut c = DeviceCollector::new();
    c.record(addr(1), Some("HC-05".to_string()));
    c.record(addr(2), None);
    c.record(addr(3), Some("printer".to_string()));
    let devices = c.into_devices();
    assert_eq!(devices.len(), 2);
    assert_eq!(devices[0].name, "HC-05");
    assert_eq!(devices[0].address.octets, addr(1).octets);
    assert_eq!(devices[1].name, "printer");
    assert_eq!(devices[1].address.octets, addr(3).octets);
}

#[test]
fn collector_starts_empty() {
    assert!(DeviceCollector::new().into_devices().is_empty());
}

#[test]
fn discovery_timeout_keeps_devices() {
    let found = vec![device("HC-05", 1)];
    let res: Result<_, String> = finish_discovery(DiscoveryEnd::TimedOut, found);
    let devices = res.unwrap();
    assert_eq!(devices.len(), 1);
    assert_eq!(devices[0].name, "HC-05");
}

#[test]
fn discovery_completed_keeps_devices() {
    let found = vec![device("a", 1), device("b", 2)];
    let res: Result<_, String> = finish_discovery(DiscoveryEnd::Finished(Ok(())), found);
    assert_eq!(res.unwrap().len(), 2);
}

#[test]
fn discovery_error_is_handed_on() {
    let found = vec![device("a", 1)];
    let res = finish_discovery(DiscoveryEnd::Finished(Err("adapter gone".to_string())), found);
    assert_eq!(res.unwrap_err(), "adapter gone");
}

#[test]
fn list_entries_carry_name_and_address_bytes() {
    let devices = vec![device("HC-05", 0x10), device("HC-06", 0x20)];
    let entries = list_entries(&devices);
    assert_eq!(entries.len(), 2);
    assert_eq!(entries[0].name, "HC-05");
    assert_eq!(entries[0].addr, vec![0x98, 0xd3, 0x31, 0xf5, 0x12, 0x10]);
    assert_eq!(entries[1].name, "HC-06");
    assert_eq!(entries[1].addr, vec![0x98, 0xd3, 0x31, 0xf5, 0x12, 0x20]);
}

#[test]
fn listed_address_opens_same_device() {
    let devices = vec![device("HC-05", 0x42)];
    let entries = list_entries(&devices);
    let a = address_argument(&entries[0].addr, "ignored").unwrap();
    assert!(a.same_as(&devices[0].address));
}

#[test]
fn client_profile_settings() {
    let p = serial_client_profile();
    assert_eq!(p.name.as_deref(), Some("rfcat client"));
    assert_eq!(p.role, Some(ProfileRole::Client));
    assert_eq!(p.require_authentication, Some(false));
    assert_eq!(p.require_authorization, Some(false));
    assert_eq!(p.auto_connect, Some(true));
    assert_eq!(p.uuid, 0x0000_1101_0000_1000_8000_0080_5f9b_34fb);
}

#[test]
fn failed_attempt_is_reported_and_retried() {
    let action = connect_step(&addr(1), &ConnectEvent::AttemptFinished { succeeded: false });
    assert_eq!(action, ConnectAction::Retry { report_failure: true, delay_ms: 3000 });
    assert_eq!(RETRY_DELAY_MS, 3000);
}

#[test]
fn successful_attempt_waits_for_request() {
    let action = connect_step(&addr(1), &ConnectEvent::AttemptFinished { succeeded: true });
    assert_eq!(action, ConnectAction::Retry { report_failure: false, delay_ms: 3000 });
}

#[test]
fn request_from_target_accepted() {
    let action = connect_step(&addr(1), &ConnectEvent::Request { device: addr(1) });
    assert_eq!(action, ConnectAction::Accept);
}

#[test]
fn request_from_other_device_rejected() {
    let action = connect_step(&addr(1), &ConnectEvent::Request { device: addr(2) });
    assert_eq!(action, ConnectAction::Reject);
}

#[test]
fn read_error_reported() {
    match read_step(&addr(1), ReadOutcome::Failed("broken pipe".to_string()), true) {
        ReadAction::ReportError(m) => assert_eq!(m, "broken pipe"),
        other => panic!("unexpected {:?}", other),
    }
}

#[test]
fn text_delivered_to_listener() {
    match read_step(&addr(9), ReadOutcome::Received(b"OK\r\n".to_vec()), true) {
        ReadAction::Deliver { text, data } => {
            assert_eq!(text, "OK\r\n");
            let d = data.unwrap();
            assert_eq!(d.tag, "bt_data");
            assert_eq!(d.address, vec![0x98, 0xd3, 0x31, 0xf5, 0x12, 9]);
            assert_eq!(d.text, "OK\r\n");
        },
        other => panic!("unexpected {:?}", other),
    }
}

#[test]
fn text_without_listener_only_reported() {
    match read_step(&addr(9), ReadOutcome::Received(vec![0xc3, 0xa9, b'!']), false) {
        ReadAction::Deliver { text, data } => {
            assert_eq!(text, "\u{e9}!");
            assert!(data.is_none());
        },
        other => panic!("unexpected {:?}", other),
    }
}

#[test]
fn empty_read_is_empty_text() {
    match read_step(&addr(9), ReadOutcome::Received(vec![]), true) {
        ReadAction::Deliver { text, data } => {
            assert_eq!(text, "");
            assert_eq!(data.unwrap().text, "");
        },
        other => panic!("unexpected {:?}", other),
    }
}

#[test]
fn invalid_utf8_discarded() {
    assert!(matches!(read_step(&addr(9), ReadOutcome::Received(vec![b'a', 0xff]), true), ReadAction::Discard));
    // a multi-byte sequence cut off at the end of the buffer
    assert!(matches!(read_step(&addr(9), ReadOutcome::Received(vec![b'x', 0xe2, 0x82]), true), ReadAction::Discard));
}

#[test]
fn reader_constants() {
    assert_eq!(READ_BUFFER_SIZE, 256);
    assert_eq!(READ_PAUSE_MS, 100);
}

#[test]
fn send_with_one_argument() {
    assert!(matches!(port_method("send", 1), PortCall::Send));
}

#[test]
fn send_with_wrong_argument_count() {
    for argc in [0usize, 2, 3] {
        match port_method("send", argc) {
            PortCall::Fail(m) => assert_eq!(m, "send method expects 1 argument"),
            PortCall::Send => panic!("send accepted {} arguments", argc),
        }
    }
}

#[test]
fn unknown_method_rejected() {
    match port_method("subscribe", 1) {
        PortCall::Fail(m) => assert_eq!(m, "unknown method called: subscribe"),
        PortCall::Send => panic!("unknown method accepted"),
    }
    match port_method("Send", 1) {
        PortCall::Fail(m) => assert_eq!(m, "unknown method called: Send"),
        PortCall::Send => panic!("method names are case-sensitive"),
    }
}

#[test]
fn address_argument_accepts_six_bytes() {
    let a = address_argument(&[0, 0x11, 0x22, 0x33, 0x44, 0x55], "$b\"...\"").unwrap();
    assert_eq!(a.octets, [0, 0x11, 0x22, 0x33, 0x44, 0x55]);
}

#[test]
fn address_argument_wrong_length() {
    let err = address_argument(&[1, 2, 3], "$b\"\\x01\\x02\\x03\"").unwrap_err();
    assert_eq!(
        err,
        "blue:spawn_port_for_address address argument needs to be 6 bytes long, got: '$b\"\\x01\\x02\\x03\"'"
    );
}

#[test]
fn object_labels() {
    assert_eq!(adapter_label(), "$<BluetoothAdapter>");
    assert_eq!(port_label(), "$<BluetoothSerialPort>");
}

#[test]
fn script_path_default_and_given() {
    assert_eq!(script_path(None), "main.wl");
    assert_eq!(script_path(Some("demo.wl".to_string())), "demo.wl");
}

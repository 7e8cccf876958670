use std::time::Duration;
use surface_dial::hid::mock::MockHidDevice;
use surface_dial::hid::{DialReport, HidDevice, HidError};

#[test]
fn test_mock_device_creation() {
    let device = MockHidDevice::new();
    assert!(device.is_connected());
    assert_eq!(device.get_battery(), 75);
    assert_eq!(device.pending_events(), 0);
}

#[test]
fn test_queue_rotation() {
    let mut device = MockHidDevice::new();
    device.queue_rotation(5);
    device.queue_rotation(-3);
    assert_eq!(device.pending_events(), 2);

    let mut buf = [0u8; 64];

    let len = device.read_timeout(&mut buf, Duration::from_millis(10)).unwrap();
    assert_eq!(len, 3);
    let report = DialReport::parse(&buf[..len]).unwrap();
    assert_eq!(report.rotation, 5);
    assert!(!report.button_pressed);

    let len = device.read_timeout(&mut buf, Duration::from_millis(10)).unwrap();
    let report = DialReport::parse(&buf[..len]).unwrap();
    assert_eq!(report.rotation, -3);
}

#[test]
fn test_queue_click() {
    let mut device = MockHidDevice::new();
    device.queue_click();
    assert_eq!(device.pending_events(), 2);

    let mut buf = [0u8; 64];

    let len = device.read_timeout(&mut buf, Duration::from_millis(10)).unwrap();
    let report = DialReport::parse(&buf[..len]).unwrap();
    assert!(report.button_pressed);
    assert_eq!(report.rotation, 0);

    let len = device.read_timeout(&mut buf, Duration::from_millis(10)).unwrap();
    let report = DialReport::parse(&buf[..len]).unwrap();
    assert!(!report.button_pressed);
}

#[test]
fn test_disconnect() {
    let mut device = MockHidDevice::new();
    device.disconnect();

    let mut buf = [0u8; 64];
    let result = device.read_timeout(&mut buf, Duration::from_millis(10));
    assert!(matches!(result, Err(HidError::Disconnected)));
}

#[test]
fn test_timeout_on_empty() {
    let mut device = MockHidDevice::new();
    let mut buf = [0u8; 64];

    let result = device.read_timeout(&mut buf, Duration::from_millis(1));
    assert!(matches!(result, Err(HidError::Timeout)));
}

#[test]
fn test_battery_level() {
    let mut device = MockHidDevice::new();
    device.set_battery(25);

    let mut buf = [0u8; 64];
    let len = device.get_feature_report(&mut buf).unwrap();
    assert_eq!(len, 3);
    assert_eq!(buf[0], 0x05);
    assert_eq!(buf[1], 25);
}

#[test]
fn test_double_click() {
    let mut device = MockHidDevice::new();
    device.queue_double_click();
    assert_eq!(device.pending_events(), 4);
}

#[test]
fn test_triple_click() {
    let mut device = MockHidDevice::new();
    device.queue_triple_click();
    assert_eq!(device.pending_events(), 6);
}

#[test]
fn test_dial_report_parse_valid() {
    let buf = [0x01, 0x01, 0x05];
    let report = DialReport::parse(&buf).unwrap();
    assert!(report.button_pressed);
    assert_eq!(report.rotation, 5);
}

#[test]
fn test_dial_report_parse_no_button() {
    let buf = [0x01, 0x00, 0xFB];
    let report = DialReport::parse(&buf).unwrap();
    assert!(!report.button_pressed);
    assert_eq!(report.rotation, -5);
}

#[test]
fn test_dial_report_parse_invalid_report_id() {
    let buf = [0x02, 0x00, 0x00];
    assert!(DialReport::parse(&buf).is_none());
}

#[test]
fn test_dial_report_parse_too_short() {
    let buf = [0x01, 0x00];
    assert!(DialReport::parse(&buf).is_none());
}

#[test]
fn test_dial_report_roundtrip() {
    let report = DialReport::new(true, -10);
    let bytes = report.to_bytes();
    let parsed = DialReport::parse(&bytes).unwrap();
    assert_eq!(report, parsed);
}

#[test]
fn test_mock_hid_rotation_sequence() {
    let mut device = MockHidDevice::new();
    device.queue_rotations(&[1, 2, -1, -3, 5]);

    let mut buf = [0u8; 64];
    let mut rotations = Vec::new();

    while device.pending_events() > 0 {
        let len = device.read_timeout(&mut buf, Duration::from_millis(10)).unwrap();
        let report = DialReport::parse(&buf[..len]).unwrap();
        rotations.push(report.rotation);
    }

    assert_eq!(rotations, vec![1, 2, -1, -3, 5]);
}

#[test]
fn test_mock_hid_click_sequence() {
    let mut device = MockHidDevice::new();
    device.queue_click();

    let mut buf = [0u8; 64];

    let len = device.read_timeout(&mut buf, Duration::from_millis(10)).unwrap();
    let report = DialReport::parse(&buf[..len]).unwrap();
    assert!(report.button_pressed);
    assert_eq!(report.rotation, 0);

    let len = device.read_timeout(&mut buf, Duration::from_millis(10)).unwrap();
    let report = DialReport::parse(&buf[..len]).unwrap();
    assert!(!report.button_pressed);
    assert_eq!(report.rotation, 0);

    assert!(matches!(
        device.read_timeout(&mut buf, Duration::from_millis(1)),
        Err(HidError::Timeout)
    ));
}

#[test]
fn test_mock_hid_disconnect_reconnect() {
    let mut device = MockHidDevice::new();
    device.queue_rotation(5);

    let mut buf = [0u8; 64];

    device.disconnect();
    assert!(matches!(
        device.read_timeout(&mut buf, Duration::from_millis(10)),
        Err(HidError::Disconnected)
    ));

    device.reconnect();

    let len = device.read_timeout(&mut buf, Duration::from_millis(10)).unwrap();
    let report = DialReport::parse(&buf[..len]).unwrap();
    assert_eq!(report.rotation, 5);
}

#[test]
fn test_mock_hid_battery_report() {
    let mut device = MockHidDevice::new();
    device.set_battery(42);

    let mut buf = [0u8; 64];
    let len = device.get_feature_report(&mut buf).unwrap();

    assert_eq!(len, 3);
    assert_eq!(buf[0], 0x05);
    assert_eq!(buf[1], 42);
    assert_eq!(buf[2], 0x00);
}

#[test]
fn test_dial_report_extreme_values() {
    let report = DialReport::new(false, 127);
    assert_eq!(report.rotation, 127);

    let bytes = report.to_bytes();
    let parsed = DialReport::parse(&bytes).unwrap();
    assert_eq!(parsed.rotation, 127);

    let report = DialReport::new(false, -127);
    assert_eq!(report.rotation, -127);

    let bytes = report.to_bytes();
    let parsed = DialReport::parse(&bytes).unwrap();
    assert_eq!(parsed.rotation, -127);
}

#[test]
fn test_dial_report_combined_events() {
    let report = DialReport::new(true, 3);
    assert!(report.button_pressed);
    assert_eq!(report.rotation, 3);

    let bytes = report.to_bytes();
    let parsed = DialReport::parse(&bytes).unwrap();
    assert!(parsed.button_pressed);
    assert_eq!(parsed.rotation, 3);
}

#[test]
fn test_multiple_quick_rotations() {
    let mut device = MockHidDevice::new();

    for _ in 0..10 {
        device.queue_rotation(1);
    }

    let mut buf = [0u8; 64];
    let mut count = 0;

    while device.pending_events() > 0 {
        let _ = device.read_timeout(&mut buf, Duration::from_millis(10)).unwrap();
        count += 1;
    }

    assert_eq!(count, 10);
}

#[test]
fn test_raw_report_passthrough() {
    let mut device = MockHidDevice::new();

    let custom_data = vec![0x02, 0xFF, 0xAB, 0xCD];
    device.queue_raw_report(custom_data.clone());

    let mut buf = [0u8; 64];
    let len = device.read_timeout(&mut buf, Duration::from_millis(10)).unwrap();

    assert_eq!(len, 4);
    assert_eq!(&buf[..4], &custom_data[..]);
}

// Laws and edge cases of the library.

#[test]
fn report_roundtrip_keeps_every_rotation() {
    for r in i8::MIN..=i8::MAX {
        for b in [false, true] {
            let report = DialReport::new(b, r);
            assert_eq!(DialReport::parse(&report.to_bytes()), Some(report));
        }
    }
}

#[test]
fn parse_reads_only_bit_zero_of_buttons() {
    let report = DialReport::parse(&[0x01, 0xFE, 0x00]).unwrap();
    assert!(!report.button_pressed);
    let report = DialReport::parse(&[0x01, 0x03, 0x80, 0x99]).unwrap();
    assert!(report.button_pressed);
    assert_eq!(report.rotation, -128);
}

#[test]
fn long_press_events_are_button_reports() {
    let mut device = MockHidDevice::new();
    device.queue_long_press_start();
    device.queue_long_press_end();
    let mut buf = [0u8; 8];
    let len = device.read_timeout(&mut buf, Duration::from_millis(1)).unwrap();
    assert!(DialReport::parse(&buf[..len]).unwrap().button_pressed);
    let len = device.read_timeout(&mut buf, Duration::from_millis(1)).unwrap();
    assert!(!DialReport::parse(&buf[..len]).unwrap().button_pressed);
}

#[test]
fn clear_events_empties_the_queue() {
    let mut device = MockHidDevice::new();
    device.queue_triple_click();
    device.clear_events();
    assert_eq!(device.pending_events(), 0);
}

#[test]
fn feature_report_refuses_short_buffer() {
    let mut device = MockHidDevice::new();
    let mut buf = [7u8; 2];
    match device.get_feature_report(&mut buf) {
        Err(HidError::Io(msg)) => assert_eq!(msg, "feature report buffer too small"),
        other => panic!("unexpected {:?}", other),
    }
    assert_eq!(buf, [7u8; 2]);
    device.disconnect();
    assert!(matches!(device.get_feature_report(&mut buf), Err(HidError::Disconnected)));
}

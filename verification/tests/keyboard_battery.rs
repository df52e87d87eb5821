use zenbook_duo_daemon::keyboard_battery::{
    parse_usb_battery_report, plausible_usb_battery_sample, usb_battery_charging,
    usb_battery_full, USB_BATTERY_STATUS_CHARGING, USB_BATTERY_STATUS_FULL,
};
use zenbook_duo_daemon::keyboard_battery_bt::{
    find_keyboard_bluez_path, is_keyboard_name, monitor_bt_battery_once, BluezDevice,
    BtBatteryAction, BtBatteryEvent,
};

#[test]
fn parses_vendor_battery_report() {
    assert_eq!(
        parse_usb_battery_report(&[0x5a, 0x3d, 72, 0x09, 0, 0]),
        Some((72, 0x09))
    );
    assert_eq!(
        parse_usb_battery_report(&[0x5a, 0x3d, 100, 0x01, 0, 0]),
        Some((100, 0x01))
    );
}

#[test]
fn charging_status_while_below_full_threshold() {
    assert!(usb_battery_charging(USB_BATTERY_STATUS_CHARGING, 94));
    assert!(!usb_battery_charging(USB_BATTERY_STATUS_FULL, 100));
    assert!(!usb_battery_charging(USB_BATTERY_STATUS_CHARGING, 96));
}

#[test]
fn full_at_threshold_or_firmware_flag() {
    assert!(usb_battery_full(USB_BATTERY_STATUS_CHARGING, 95));
    assert!(usb_battery_full(USB_BATTERY_STATUS_FULL, 80));
}

#[test]
fn rejects_empty_get_report_echo() {
    assert!(!plausible_usb_battery_sample(0, 0));
    assert!(plausible_usb_battery_sample(78, 0));
}

#[test]
fn rejects_other_reports() {
    assert_eq!(parse_usb_battery_report(&[0x5a, 0x3d, 72]), None);
    assert_eq!(parse_usb_battery_report(&[0x5a, 0x3e, 72, 9]), None);
    assert_eq!(parse_usb_battery_report(&[0x5b, 0x3d, 72, 9]), None);
    assert_eq!(parse_usb_battery_report(&[0x5a, 0x3d, 101, 9]), None);
    assert_eq!(parse_usb_battery_report(&[0x5a, 0x3d, 7, 2]), Some((7, 2)));
}

#[test]
fn keyboard_is_found_by_its_name() {
    assert!(is_keyboard_name("ASUS ZENBOOK DUO KEYBOARD"));
    assert!(!is_keyboard_name("SOME MOUSE"));
    let devices = vec![
        BluezDevice {
            path: "/a".to_string(),
            has_battery: true,
            name: Some("Mouse".to_string()),
        },
        BluezDevice {
            path: "/b".to_string(),
            has_battery: false,
            name: Some("ASUS Zenbook Duo Keyboard".to_string()),
        },
        BluezDevice {
            path: "/c".to_string(),
            has_battery: true,
            name: Some("ASUS Zenbook Duo Keyboard".to_string()),
        },
    ];
    assert_eq!(find_keyboard_bluez_path(&devices), Some(2));
    assert_eq!(find_keyboard_bluez_path(&Vec::new()), None);
}

#[test]
fn bluetooth_battery_is_read_off_usb_only() {
    let actions = monitor_bt_battery_once(BtBatteryEvent::Searched { found: false }, false);
    assert_eq!(actions, vec![BtBatteryAction::SearchAfter { secs: 10 }]);
    let actions = monitor_bt_battery_once(BtBatteryEvent::Level(Some(40)), false);
    assert!(actions.contains(&BtBatteryAction::SetLevel(40)));
    let actions = monitor_bt_battery_once(BtBatteryEvent::LevelStreamEnded, false);
    assert!(actions.contains(&BtBatteryAction::End));
}

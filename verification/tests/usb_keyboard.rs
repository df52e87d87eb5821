use zenbook_duo_daemon::config::{SpecialKey, UsbKeyboardPortsConfig};
use zenbook_duo_daemon::events::Event;
use zenbook_duo_daemon::hex::parse_hex_string;
use zenbook_duo_daemon::keyboard_usb::{
    backlight_report, battery_query_report, control_report, fn_lock_report, mic_mute_report,
    parse_keyboard_data, poll_usb_battery_via_get_report, usb_session_step, HotplugAction,
    HotplugEvent, UsbAction, UsbEvent, UsbMonitor, UsbSessionSettings, VendorReport,
};
use zenbook_duo_daemon::state::KeyboardBacklightState;
use zenbook_duo_daemon::usb_keyboard_ports::{
    hex4_text, init_pogo_devpaths, init_usb_keyboard_ids, is_pogo_dock_devpath,
    keyboard_on_pogo_dock_attempt, keyboard_on_pogo_dock_by_ids, parse_bus_id, read_sysfs_trimmed,
    sysfs_devpath_for_usb_device_once, DockLookup, SysfsUsbDevice, UsbKeyboardPorts,
};

fn ports() -> UsbKeyboardPorts {
    let mut ports = UsbKeyboardPorts::new();
    init_pogo_devpaths(
        &mut ports,
        &UsbKeyboardPortsConfig {
            pogo_dock_hub_ports: vec!["6".to_string(), "8".to_string()],
        },
    );
    ports
}

fn device(bus: &str, dev: &str, vendor: &str, product: &str, devpath: &str) -> SysfsUsbDevice {
    SysfsUsbDevice {
        busnum: Some(bus.to_string()),
        devnum: Some(dev.to_string()),
        id_vendor: Some(vendor.to_string()),
        id_product: Some(product.to_string()),
        devpath: Some(devpath.to_string()),
    }
}

#[test]
fn parse_bus_id_decimal() {
    assert_eq!(parse_bus_id("003"), Some(3));
    assert_eq!(parse_bus_id("3"), Some(3));
}

#[test]
fn pogo_devpath_matching() {
    let ports = ports();
    assert!(is_pogo_dock_devpath(&ports, "6"));
    assert!(is_pogo_dock_devpath(&ports, "8"));
    assert!(!is_pogo_dock_devpath(&ports, "4"));
}

#[test]
fn bus_ids_out_of_range_are_refused() {
    assert_eq!(parse_bus_id("256"), None);
    assert_eq!(parse_bus_id("x"), None);
    assert_eq!(parse_bus_id(""), None);
    assert_eq!(hex4_text(0x0b05), "0b05");
    assert_eq!(read_sysfs_trimmed(Some(" 6\n")).as_deref(), Some("6"));
    assert_eq!(read_sysfs_trimmed(None), None);
}

#[test]
fn dock_is_found_by_address_then_by_ids() {
    let mut ports = ports();
    init_usb_keyboard_ids(&mut ports, 0x0b05, 0x1b2c);
    let devices = vec![device("3", "7", "0b05", "1b2c", "6")];
    assert_eq!(
        sysfs_devpath_for_usb_device_once(&devices, "003", 7).as_deref(),
        Some("6")
    );
    assert!(matches!(
        keyboard_on_pogo_dock_attempt(&ports, &devices, "003", 7, 0),
        DockLookup::Done(true)
    ));
    let none: Vec<SysfsUsbDevice> = Vec::new();
    assert!(matches!(
        keyboard_on_pogo_dock_attempt(&ports, &none, "003", 7, 0),
        DockLookup::Retry { delay_ms: 40 }
    ));
    assert!(matches!(
        keyboard_on_pogo_dock_attempt(&ports, &none, "003", 7, 24),
        DockLookup::FindByIds
    ));
    assert!(keyboard_on_pogo_dock_by_ids(&ports, &devices, "003", 7));
    assert!(!keyboard_on_pogo_dock_by_ids(&ports, &none, "003", 7));
}

#[test]
fn hex_text_is_read() {
    assert_eq!(parse_hex_string("5abaC5"), vec![0x5a, 0xba, 0xc5]);
    assert_eq!(parse_hex_string(""), Vec::<u8>::new());
    let halves = [parse_hex_string("5a3d"), parse_hex_string("00ff")].concat();
    assert_eq!(parse_hex_string("5a3d00ff"), halves);
}

#[test]
fn reports_to_the_keyboard() {
    let mut expected = vec![0x5a, 0xba, 0xc5, 0xc4, 3];
    expected.resize(16, 0);
    assert_eq!(backlight_report(KeyboardBacklightState::High), expected);
    let mut expected = vec![0x5a, 0xd0, 0x7c, 1];
    expected.resize(16, 0);
    assert_eq!(mic_mute_report(true), expected);
    assert_eq!(control_report(Event::MicMuteLed(true)), Some(expected));
    let mut expected = vec![0x5a, 0xd0, 0x4e, 0];
    expected.resize(16, 0);
    assert_eq!(fn_lock_report(true), expected);
    assert_eq!(battery_query_report()[..2], [0x5a, 0x3d]);
    assert_eq!(control_report(Event::SecondaryDisplay(true)), None);
}

#[test]
fn reports_from_the_keyboard() {
    assert_eq!(
        parse_keyboard_data(&[0x5a, 0x3d, 72, 9, 0, 0]),
        VendorReport::Battery { pct: 72, status: 9 }
    );
    assert_eq!(
        parse_keyboard_data(&[90, 199, 0, 0, 0, 0]),
        VendorReport::Key(SpecialKey::KeyboardBacklight)
    );
    assert_eq!(parse_keyboard_data(&[90, 0, 0, 0, 0, 0]), VendorReport::Released);
    assert_eq!(parse_keyboard_data(&[90, 199, 0, 0]), VendorReport::Released);
    assert_eq!(poll_usb_battery_via_get_report(&[0x5a, 0x3d, 0, 0]), None);
    assert_eq!(poll_usb_battery_via_get_report(&[0x5a, 0x3d, 50, 0]), Some((50, 0)));
}

#[test]
fn session_publishes_sets_up_and_ends() {
    let settings = UsbSessionSettings {
        fn_lock: true,
        backlight: KeyboardBacklightState::Low,
        mic_mute_led: false,
    };
    let opened = usb_session_step(settings, UsbEvent::Opened { docked: true });
    assert!(matches!(
        opened[0],
        UsbAction::SetConnection { usb: true, docked: true }
    ));
    let ready = usb_session_step(settings, UsbEvent::EndpointReady(true));
    assert_eq!(ready.len(), 4);
    match &ready[0] {
        UsbAction::MustSend(bytes) => assert_eq!(&bytes[..4], &[0x5a, 0xd0, 0x4e, 0]),
        _ => panic!("a report was expected"),
    }
    match &ready[1] {
        UsbAction::Send(bytes) => assert_eq!(bytes[4], 1),
        _ => panic!("a report was expected"),
    }
    assert!(usb_session_step(settings, UsbEvent::Claimed(false)).is_empty());
    let ended = usb_session_step(settings, UsbEvent::Shutdown);
    assert!(matches!(
        ended[0],
        UsbAction::SetConnection { usb: false, docked: false }
    ));
    assert!(matches!(ended[2], UsbAction::Stop));
}

#[test]
fn a_new_keyboard_replaces_the_old() {
    let mut m = UsbMonitor { current: Some(1), vendor_id: 5, product_id: 6 };
    let actions = m.step(HotplugEvent::Connected { device: 2, vendor_id: 5, product_id: 6 });
    assert_eq!(
        actions,
        vec![
            HotplugAction::Shutdown { device: 1 },
            HotplugAction::SleepMs(120),
            HotplugAction::Start { device: 2 },
        ]
    );
    assert!(m.step(HotplugEvent::Disconnected { device: 1 }).is_empty());
    assert_eq!(
        m.step(HotplugEvent::Disconnected { device: 2 }),
        vec![HotplugAction::Shutdown { device: 2 }]
    );
    assert!(m
        .step(HotplugEvent::Connected { device: 3, vendor_id: 1, product_id: 1 })
        .is_empty());
}

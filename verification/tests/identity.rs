use device_pairing::buid::toggle_buid;
use device_pairing::directory::{find_device, resolve, usb_devices, DeviceHandle, Transport};
use device_pairing::error::ErrorKind;
use device_pairing::folders::{app_data_folder, Environment, Folder, Platform};

fn handle(udid: &str, transport: Transport, device_id: u32) -> DeviceHandle {
    DeviceHandle { udid: udid.to_string(), transport, device_id }
}

#[test]
fn toggle_turns_leading_f_into_a() {
    assert_eq!(toggle_buid("F1234567"), "A1234567");
    assert_eq!(toggle_buid("F"), "A");
    assert_eq!(toggle_buid("FF"), "AF");
}

#[test]
fn toggle_turns_any_other_lead_into_f() {
    assert_eq!(toggle_buid("A1234567"), "F1234567");
    assert_eq!(toggle_buid("01234567"), "F1234567");
    assert_eq!(toggle_buid("f1234567"), "F1234567");
    assert_eq!(toggle_buid("é-x"), "F-x");
}

#[test]
fn toggle_leaves_empty_identifier_alone() {
    assert_eq!(toggle_buid(""), "");
}

#[test]
fn usb_devices_drops_other_transports_and_keeps_order() {
    let all = vec![
        handle("AAA111", Transport::Usb, 1),
        handle("BBB222", Transport::Network, 2),
        handle("CCC333", Transport::Usb, 3),
        handle("DDD444", Transport::Unknown, 4),
    ];
    let usb = usb_devices(&all);
    assert_eq!(usb, vec![handle("AAA111", Transport::Usb, 1), handle("CCC333", Transport::Usb, 3)]);
}

#[test]
fn resolve_returns_first_exact_match() {
    let all = vec![
        handle("AAA111", Transport::Usb, 1),
        handle("CCC333", Transport::Usb, 3),
        handle("CCC333", Transport::Usb, 7),
    ];
    assert_eq!(resolve(&all, "CCC333"), Ok(handle("CCC333", Transport::Usb, 3)));
    assert_eq!(find_device(&all, "CCC333"), Some(1));
    assert_eq!(resolve(&all, "AAA111"), Ok(handle("AAA111", Transport::Usb, 1)));
}

#[test]
fn resolve_fails_for_unknown_identifier() {
    let all = vec![handle("AAA111", Transport::Usb, 1)];
    assert_eq!(resolve(&all, "ZZZ999"), Err(ErrorKind::DeviceNotFound));
    assert_eq!(resolve(&all, "AAA11"), Err(ErrorKind::DeviceNotFound));
    assert_eq!(resolve(&all, "aaa111"), Err(ErrorKind::DeviceNotFound));
    assert_eq!(resolve(&Vec::new(), "AAA111"), Err(ErrorKind::DeviceNotFound));
}

#[test]
fn resolve_never_returns_a_device_off_usb() {
    let all = vec![
        handle("AAA111", Transport::Network, 1),
        handle("AAA111", Transport::Unknown, 2),
    ];
    assert_eq!(resolve(&all, "AAA111"), Err(ErrorKind::DeviceNotFound));
    let mixed = vec![
        handle("AAA111", Transport::Network, 1),
        handle("AAA111", Transport::Usb, 2),
    ];
    assert_eq!(resolve(&mixed, "AAA111"), Ok(handle("AAA111", Transport::Usb, 2)));
}

#[test]
fn each_error_kind_has_its_text() {
    assert_eq!(ErrorKind::DeviceNotFound.describe(), "device not found");
    assert_eq!(ErrorKind::ConnectionFailed.describe(), "connection failed");
    assert_eq!(ErrorKind::ProtocolRejected.describe(), "rejected by the device");
    assert_eq!(ErrorKind::SerializationFailed.describe(), "serialization failed");
    assert_eq!(ErrorKind::IoFailed.describe(), "file could not be written");
}

#[test]
fn data_folder_prefers_xdg_then_home() {
    let env = |appdata: Option<&str>, xdg: Option<&str>, home: Option<&str>| Environment {
        appdata: appdata.map(String::from),
        xdg_data_home: xdg.map(String::from),
        home: home.map(String::from),
    };
    assert_eq!(
        app_data_folder(Platform::Other, env(Some("C:\\x"), Some("/data"), Some("/home/ann"))),
        Ok(Folder { base: "/data".to_string(), parts: vec!["Auto Capture Pair".to_string()] })
    );
    assert_eq!(
        app_data_folder(Platform::Other, env(None, None, Some("/home/ann"))),
        Ok(Folder {
            base: "/home/ann".to_string(),
            parts: vec![".local".to_string(), "share".to_string(), "Auto Capture Pair".to_string()],
        })
    );
    assert_eq!(
        app_data_folder(Platform::Other, env(Some("C:\\x"), None, None)),
        Err("Could not determine data directory".to_string())
    );
}

#[test]
fn data_folder_on_windows_needs_appdata() {
    let with = Environment { appdata: Some("C:\\Users\\ann\\AppData".to_string()), xdg_data_home: None, home: None };
    assert_eq!(
        app_data_folder(Platform::Windows, with),
        Ok(Folder { base: "C:\\Users\\ann\\AppData".to_string(), parts: vec!["Auto Capture Pair".to_string()] })
    );
    let without = Environment { appdata: None, xdg_data_home: Some("/data".to_string()), home: Some("/home/ann".to_string()) };
    assert_eq!(app_data_folder(Platform::Windows, without), Err("APPDATA not set".to_string()));
}

#[test]
fn duplicate_handle_equals_its_source() {
    let device = handle("AAA111", Transport::Usb, 7);
    assert_eq!(device.duplicate(), device);
    assert_eq!(find_device(&[device].to_vec(), "BBB222"), None);
}

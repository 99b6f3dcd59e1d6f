use device_pairing::directory::{DeviceHandle, Transport};
use device_pairing::error::ErrorKind;
use device_pairing::listing::{device_name, Listing};
use device_pairing::names::NameTable;
use device_pairing::protocol::{Action, Outcome, Reply};

fn handle(udid: &str, transport: Transport, device_id: u32) -> DeviceHandle {
    DeviceHandle { udid: udid.to_string(), transport, device_id }
}

fn values_named(name: &str) -> plist::Value {
    let mut dict = plist::Dictionary::new();
    dict.insert("ProductType".to_string(), plist::Value::String("Phone1,1".to_string()));
    dict.insert("DeviceName".to_string(), plist::Value::String(name.to_string()));
    plist::Value::Dictionary(dict)
}

fn table(entries: &[(&str, &str)]) -> NameTable {
    NameTable { entries: entries.iter().map(|(n, u)| (n.to_string(), u.to_string())).collect() }
}

fn started(list: Vec<DeviceHandle>) -> (Listing, Action) {
    let (state, act) = Listing::begin();
    assert_eq!(act, Action::ConnectDaemon);
    let (state, act) = state.step(Reply::Completed);
    assert_eq!(act, Action::ListDevices);
    state.step(Reply::Devices(list))
}

#[test]
fn device_name_reads_the_string_under_its_key() {
    assert_eq!(device_name(&values_named("Ann's phone")), Some("Ann's phone".to_string()));
    assert_eq!(device_name(&values_named("")), Some(String::new()));
}

#[test]
fn device_name_is_absent_without_a_string_under_the_key() {
    assert_eq!(device_name(&plist::Value::Dictionary(plist::Dictionary::new())), None);
    assert_eq!(device_name(&plist::Value::String("DeviceName".to_string())), None);
    let mut dict = plist::Dictionary::new();
    dict.insert("DeviceName".to_string(), plist::Value::Boolean(true));
    assert_eq!(device_name(&plist::Value::Dictionary(dict)), None);
    let mut other = plist::Dictionary::new();
    other.insert("devicename".to_string(), plist::Value::String("x".to_string()));
    assert_eq!(device_name(&plist::Value::Dictionary(other)), None);
}

#[test]
fn listing_skips_device_that_fails_to_connect() {
    let (state, act) = started(vec![
        handle("AAA111", Transport::Usb, 1),
        handle("BBB222", Transport::Usb, 2),
    ]);
    assert_eq!(act, Action::ConnectLockdown { device: handle("AAA111", Transport::Usb, 1) });
    let (state, act) = state.step(Reply::Failure);
    assert_eq!(act, Action::ConnectLockdown { device: handle("BBB222", Transport::Usb, 2) });
    let (state, act) = state.step(Reply::Completed);
    assert_eq!(act, Action::ReadValues);
    let (state, act) = state.step(Reply::Values(values_named("Bea's tablet")));
    assert_eq!(state, Listing::Closed);
    assert_eq!(act, Action::Finish { outcome: Outcome::Names(table(&[("Bea's tablet", "BBB222")])) });
}

#[test]
fn listing_visits_usb_devices_only_and_in_order() {
    let (state, act) = started(vec![
        handle("NET000", Transport::Network, 9),
        handle("AAA111", Transport::Usb, 1),
        handle("UNK000", Transport::Unknown, 8),
        handle("BBB222", Transport::Usb, 2),
    ]);
    assert_eq!(act, Action::ConnectLockdown { device: handle("AAA111", Transport::Usb, 1) });
    let (state, _) = state.step(Reply::Completed);
    let (state, act) = state.step(Reply::Values(values_named("Ann's phone")));
    assert_eq!(act, Action::ConnectLockdown { device: handle("BBB222", Transport::Usb, 2) });
    let (state, _) = state.step(Reply::Completed);
    let (_, act) = state.step(Reply::Values(values_named("Bea's tablet")));
    assert_eq!(
        act,
        Action::Finish {
            outcome: Outcome::Names(table(&[("Ann's phone", "AAA111"), ("Bea's tablet", "BBB222")]))
        }
    );
}

#[test]
fn listing_skips_device_without_name_or_values() {
    let (state, _) = started(vec![
        handle("AAA111", Transport::Usb, 1),
        handle("BBB222", Transport::Usb, 2),
    ]);
    let (state, _) = state.step(Reply::Completed);
    let (state, act) = state.step(Reply::Values(plist::Value::Dictionary(plist::Dictionary::new())));
    assert_eq!(act, Action::ConnectLockdown { device: handle("BBB222", Transport::Usb, 2) });
    let (state, _) = state.step(Reply::Completed);
    let (_, act) = state.step(Reply::Failure);
    assert_eq!(act, Action::Finish { outcome: Outcome::Names(table(&[])) });
}

#[test]
fn listing_without_usb_devices_ends_empty() {
    let (state, act) = started(vec![handle("NET000", Transport::Network, 9)]);
    assert_eq!(state, Listing::Closed);
    assert_eq!(act, Action::Finish { outcome: Outcome::Names(table(&[])) });
    assert_eq!(state.step(Reply::Completed), (Listing::Closed, Action::Halt));
}

#[test]
fn listing_fails_only_on_the_daemon() {
    let (state, _) = Listing::begin();
    assert_eq!(
        state.step(Reply::Failure),
        (Listing::Closed, Action::Abort { kind: ErrorKind::ConnectionFailed })
    );
    assert_eq!(
        Listing::AwaitDevices.step(Reply::Failure),
        (Listing::Closed, Action::Abort { kind: ErrorKind::ConnectionFailed })
    );
}

#[test]
fn later_device_takes_over_a_shared_name() {
    let mut names = NameTable::new();
    assert_eq!(names.lookup("Phone"), None);
    names.record("Phone".to_string(), "AAA111".to_string());
    names.record("Tablet".to_string(), "CCC333".to_string());
    names.record("Phone".to_string(), "BBB222".to_string());
    assert_eq!(names.lookup("Phone"), Some("BBB222".to_string()));
    assert_eq!(names.lookup("Tablet"), Some("CCC333".to_string()));
    assert_eq!(names.lookup("phone"), None);
    assert_eq!(names.entries.len(), 3);
}

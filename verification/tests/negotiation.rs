use device_pairing::directory::{DeviceHandle, Transport};
use device_pairing::error::ErrorKind;
use device_pairing::negotiate::Negotiation;
use device_pairing::protocol::{Action, Outcome, Reply};
use device_pairing::record::TrustRecord;

fn usb(udid: &str, device_id: u32) -> DeviceHandle {
    DeviceHandle { udid: udid.to_string(), transport: Transport::Usb, device_id }
}

fn sample_record(udid: Option<&str>) -> TrustRecord {
    TrustRecord {
        device_certificate: vec![0x30, 0x82, 0xff, 0x01],
        host_private_key: b"host key".to_vec(),
        host_certificate: vec![0x30, 0x82, 0xfe, 0x02],
        root_private_key: b"root key".to_vec(),
        root_certificate: vec![0x30, 0x82, 0xfd, 0x03],
        system_buid: "F1234567".to_string(),
        host_id: "HOST".to_string(),
        escrow_bag: Some(vec![9, 8, 7]),
        wifi_mac_address: "aa:bb:cc:dd:ee:ff".to_string(),
        udid: udid.map(|u| u.to_string()),
    }
}

fn abort(kind: ErrorKind) -> (Negotiation, Action) {
    (Negotiation::Closed, Action::Abort { kind })
}

/// Runs a negotiation for "AAA111" up to the point where the store is asked.
fn up_to_store(buid: &str) -> (Negotiation, Action) {
    let (state, act) = Negotiation::begin("AAA111");
    assert_eq!(act, Action::ConnectDaemon);
    let (state, act) = state.step(Reply::Completed);
    assert_eq!(act, Action::ListDevices);
    let (state, act) = state.step(Reply::Devices(vec![usb("BBB222", 4), usb("AAA111", 5)]));
    assert_eq!(act, Action::ConnectLockdown { device: usb("AAA111", 5) });
    let (state, act) = state.step(Reply::Completed);
    assert_eq!(act, Action::FetchBuid);
    state.step(Reply::Buid(buid.to_string()))
}

fn assert_host_id_shape(id: &str) {
    assert_eq!(id.len(), 36);
    for (i, c) in id.chars().enumerate() {
        if i == 8 || i == 13 || i == 18 || i == 23 {
            assert_eq!(c, '-');
        } else {
            assert!(c.is_ascii_digit() || ('A'..='F').contains(&c), "unexpected {c:?} at {i}");
        }
    }
}

#[test]
fn negotiation_mints_under_toggled_buid_when_store_is_empty() {
    let (state, act) = up_to_store("F1234567");
    assert_eq!(act, Action::FetchStoredRecord { udid: "AAA111".to_string() });
    let (state, act) = state.step(Reply::Failure);
    assert_eq!(state, Negotiation::AwaitPairing { device: usb("AAA111", 5) });
    match act {
        Action::Pair { host_id, buid } => {
            assert_eq!(buid, "A1234567");
            assert_host_id_shape(&host_id);
        }
        other => panic!("expected a handshake, got {other:?}"),
    }
    let (state, act) = state.step(Reply::Record(sample_record(Some("OTHER"))));
    assert_eq!(act, Action::StartSession);
    assert_eq!(state.record(), Some(&sample_record(Some("AAA111"))));
    let (state, act) = state.step(Reply::Completed);
    assert_eq!(
        act,
        Action::SetFlag {
            domain: "com.apple.mobile.wireless_lockdown".to_string(),
            key: "EnableWifiDebugging".to_string(),
            value: true,
        }
    );
    assert_eq!(state.record(), Some(&sample_record(Some("AAA111"))));
    let (state, act) = state.step(Reply::Completed);
    assert_eq!(state, Negotiation::Closed);
    assert_eq!(act, Action::Finish { outcome: Outcome::Record(sample_record(Some("AAA111"))) });
}

#[test]
fn negotiation_reuses_stored_record_without_handshake() {
    let (state, _) = up_to_store("F1234567");
    let mut asked = Vec::new();
    let (state, act) = state.step(Reply::Record(sample_record(None)));
    asked.push(act);
    let (state, act) = state.step(Reply::Completed);
    asked.push(act);
    let (state, act) = state.step(Reply::Completed);
    assert_eq!(state, Negotiation::Closed);
    assert_eq!(act, Action::Finish { outcome: Outcome::Record(sample_record(Some("AAA111"))) });
    assert_eq!(asked[0], Action::StartSession);
    assert!(asked.iter().all(|a| !matches!(a, Action::Pair { .. })));
}

#[test]
fn stored_state_keeps_identity_for_a_later_handshake() {
    let (state, _) = up_to_store("01234567");
    match &state {
        Negotiation::AwaitStoredRecord { device, host_id, buid } => {
            assert_eq!(device, &usb("AAA111", 5));
            assert_eq!(buid, "F1234567");
            assert_host_id_shape(host_id);
        }
        other => panic!("unexpected state {other:?}"),
    }
    let (_, act) = state.step(Reply::Completed);
    assert!(matches!(act, Action::Pair { ref buid, .. } if buid == "F1234567"));
}

#[test]
fn empty_buid_is_handed_on_unchanged() {
    let (state, _) = up_to_store("");
    let (_, act) = state.step(Reply::Failure);
    assert!(matches!(act, Action::Pair { ref buid, .. } if buid.is_empty()));
}

#[test]
fn host_ids_are_fresh_for_each_negotiation() {
    let (first, _) = up_to_store("F1234567");
    let (second, _) = up_to_store("F1234567");
    let id_of = |s: &Negotiation| match s {
        Negotiation::AwaitStoredRecord { host_id, .. } => host_id.clone(),
        other => panic!("unexpected state {other:?}"),
    };
    assert_ne!(id_of(&first), id_of(&second));
}

#[test]
fn negotiation_fails_for_absent_device() {
    let (state, _) = Negotiation::begin("ZZZ999");
    let (state, _) = state.step(Reply::Completed);
    let out = state.step(Reply::Devices(vec![usb("AAA111", 5)]));
    assert_eq!(out, abort(ErrorKind::DeviceNotFound));
    assert_eq!(out.0.step(Reply::Completed), (Negotiation::Closed, Action::Halt));
}

#[test]
fn negotiation_ignores_device_off_usb() {
    let (state, _) = Negotiation::begin("AAA111");
    let (state, _) = state.step(Reply::Completed);
    let list = vec![DeviceHandle { udid: "AAA111".to_string(), transport: Transport::Network, device_id: 1 }];
    assert_eq!(state.step(Reply::Devices(list)), abort(ErrorKind::DeviceNotFound));
}

#[test]
fn daemon_and_service_failures_are_connection_failures() {
    let (state, _) = Negotiation::begin("AAA111");
    assert_eq!(state.step(Reply::Failure), abort(ErrorKind::ConnectionFailed));
    let state = Negotiation::AwaitDevices { target: "AAA111".to_string() };
    assert_eq!(state.step(Reply::Failure), abort(ErrorKind::ConnectionFailed));
    let state = Negotiation::AwaitLockdown { device: usb("AAA111", 5) };
    assert_eq!(state.step(Reply::Failure), abort(ErrorKind::ConnectionFailed));
    let state = Negotiation::AwaitBuid { device: usb("AAA111", 5) };
    assert_eq!(state.step(Reply::Failure), abort(ErrorKind::ConnectionFailed));
}

#[test]
fn refusals_by_the_device_are_protocol_rejections() {
    let state = Negotiation::AwaitPairing { device: usb("AAA111", 5) };
    assert_eq!(state.step(Reply::Failure), abort(ErrorKind::ProtocolRejected));
    let state = Negotiation::AwaitSession { device: usb("AAA111", 5), record: sample_record(Some("AAA111")) };
    assert_eq!(state.step(Reply::Failure), abort(ErrorKind::ProtocolRejected));
    let state = Negotiation::AwaitFlag { device: usb("AAA111", 5), record: sample_record(Some("AAA111")) };
    assert_eq!(state.step(Reply::Failure), abort(ErrorKind::ProtocolRejected));
}

#[test]
fn reply_that_does_not_answer_counts_as_failure() {
    let (state, _) = Negotiation::begin("AAA111");
    assert_eq!(state.step(Reply::Buid("F1".to_string())), abort(ErrorKind::ConnectionFailed));
    let state = Negotiation::AwaitPairing { device: usb("AAA111", 5) };
    assert_eq!(state.step(Reply::Completed), abort(ErrorKind::ProtocolRejected));
}

#[test]
fn record_is_held_only_while_session_and_flag_are_pending() {
    let (state, _) = Negotiation::begin("AAA111");
    assert_eq!(state.record(), None);
    assert_eq!(Negotiation::Closed.record(), None);
    let bound = sample_record(None).bind_to_device("AAA111");
    assert_eq!(bound, sample_record(Some("AAA111")));
}

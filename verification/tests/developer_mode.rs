use device_pairing::developer_mode::{DeveloperMode, Request};
use device_pairing::directory::{DeviceHandle, Transport};
use device_pairing::error::ErrorKind;
use device_pairing::protocol::{Action, Outcome, Reply};

fn usb(udid: &str, device_id: u32) -> DeviceHandle {
    DeviceHandle { udid: udid.to_string(), transport: Transport::Usb, device_id }
}

fn connected(request: Request) -> (DeveloperMode, Action) {
    let (state, act) = DeveloperMode::begin("AAA111", request);
    assert_eq!(act, Action::ConnectDaemon);
    let (state, act) = state.step(Reply::Completed);
    assert_eq!(act, Action::ListDevices);
    let (state, act) = state.step(Reply::Devices(vec![usb("AAA111", 3)]));
    assert_eq!(act, Action::ConnectTrustService { device: usb("AAA111", 3) });
    state.step(Reply::Completed)
}

fn abort(kind: ErrorKind) -> (DeveloperMode, Action) {
    (DeveloperMode::Closed, Action::Abort { kind })
}

#[test]
fn query_reports_the_status_the_device_gave() {
    let (state, act) = connected(Request::Query);
    assert_eq!(act, Action::QueryDeveloperMode);
    assert_eq!(
        state.step(Reply::DeveloperMode(true)),
        (DeveloperMode::Closed, Action::Finish { outcome: Outcome::DeveloperMode(true) })
    );
    let (state, _) = connected(Request::Query);
    assert_eq!(
        state.step(Reply::DeveloperMode(false)),
        (DeveloperMode::Closed, Action::Finish { outcome: Outcome::DeveloperMode(false) })
    );
}

#[test]
fn reveal_ends_without_payload() {
    let (state, act) = connected(Request::Reveal);
    assert_eq!(act, Action::RevealDeveloperMode);
    assert_eq!(
        state.step(Reply::Completed),
        (DeveloperMode::Closed, Action::Finish { outcome: Outcome::Revealed })
    );
}

#[test]
fn developer_mode_fails_for_absent_device() {
    let (state, _) = DeveloperMode::begin("ZZZ999", Request::Query);
    let (state, _) = state.step(Reply::Completed);
    assert_eq!(state.step(Reply::Devices(vec![usb("AAA111", 3)])), abort(ErrorKind::DeviceNotFound));
}

#[test]
fn unreachable_trust_service_is_a_connection_failure() {
    let state = DeveloperMode::AwaitService { request: Request::Query };
    assert_eq!(state.step(Reply::Failure), abort(ErrorKind::ConnectionFailed));
    let (state, _) = DeveloperMode::begin("AAA111", Request::Reveal);
    assert_eq!(state.step(Reply::Failure), abort(ErrorKind::ConnectionFailed));
}

#[test]
fn answer_of_the_wrong_kind_is_a_rejection() {
    let (state, _) = connected(Request::Query);
    assert_eq!(state.step(Reply::Completed), abort(ErrorKind::ProtocolRejected));
    let (state, _) = connected(Request::Reveal);
    assert_eq!(state.step(Reply::DeveloperMode(true)), abort(ErrorKind::ProtocolRejected));
    let (state, _) = connected(Request::Reveal);
    assert_eq!(state.step(Reply::Failure), abort(ErrorKind::ProtocolRejected));
}

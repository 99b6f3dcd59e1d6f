//! The exchange between an operation and its caller: the actions an
//! operation asks for, the replies it is given, and what it ends with.

use vstd::prelude::*;
use crate::directory::DeviceHandle;
use crate::error::ErrorKind;
use crate::names::NameTable;
use crate::record::TrustRecord;

verus! {

#[verifier::external_type_specification]
#[verifier::external_body]
pub struct ExValue(plist::Value);

/// The label under which connections to device services are opened.
pub const PROVIDER_LABEL: &'static str = "idevice_pair";

/// What came back from the action that an operation asked for last.
#[derive(Debug, PartialEq)]
pub enum Reply {
    /// The action succeeded and has nothing to report.
    Completed,
    /// The devices that the multiplexing daemon lists.
    Devices(Vec<DeviceHandle>),
    /// The host build identifier that the daemon holds.
    Buid(String),
    /// A trust record, from the daemon's store or from a handshake.
    Record(TrustRecord),
    /// The values that a device's management service holds.
    Values(plist::Value),
    /// Whether developer mode is enabled on the device.
    DeveloperMode(bool),
    /// The action failed.
    Failure,
}

/// What an operation has to show when it ends well.
#[derive(Debug, PartialEq, Eq)]
pub enum Outcome {
    /// The trust record that negotiation settled on.
    Record(TrustRecord),
    /// The record is on the device.
    Delivered,
    /// Display name and identifier of each device that gave its name.
    Names(NameTable),
    /// Whether developer mode is enabled.
    DeveloperMode(bool),
    /// The device shows its developer-mode option.
    Revealed,
    /// The exported record: the document itself, or the path it was written to.
    Text(String),
}

/// What an operation asks its caller to do next. The caller performs the
/// action against the daemon or the device and reports the reply.
#[derive(Debug, PartialEq, Eq)]
pub enum Action {
    /// Open a connection to the multiplexing daemon.
    ConnectDaemon,
    /// Ask the daemon for the attached devices.
    ListDevices,
    /// Open a session with the device's management service.
    ConnectLockdown { device: DeviceHandle },
    /// Ask the daemon for the host build identifier.
    FetchBuid,
    /// Ask the daemon's store for the trust record of the device `udid`.
    FetchStoredRecord { udid: String },
    /// Perform the pairing handshake under the given host identity.
    Pair { host_id: String, buid: String },
    /// Start an authenticated session with the record the operation holds.
    StartSession,
    /// Set the value `key` of the management subdomain `domain`.
    SetFlag { domain: String, key: String, value: bool },
    /// Read all values of the management service.
    ReadValues,
    /// Open a session with the device's trust-and-integrity service.
    ConnectTrustService { device: DeviceHandle },
    /// Ask whether developer mode is enabled.
    QueryDeveloperMode,
    /// Have the device show its developer-mode option.
    RevealDeveloperMode,
    /// Open a session with the device's sandbox-bridging service.
    ConnectBridge { device: DeviceHandle },
    /// Ask for file access to the documents of the application `bundle_id`.
    VendDocuments { bundle_id: String },
    /// Open the file `path` on the device for writing, creating or truncating it.
    OpenForWriting { path: String },
    /// Write all of `payload` to the file that was opened.
    WriteAll { payload: Vec<u8> },
    /// Write `bytes` to the local file `path`.
    WriteFile { path: String, bytes: Vec<u8> },
    /// The operation has ended well.
    Finish { outcome: Outcome },
    /// The operation has ended with a failure; nothing more is attempted.
    Abort { kind: ErrorKind },
    /// The operation had ended before; there is nothing to do.
    Halt,
}

} // verus!

//! The trust record, its binding to a device, its property-list document and
//! the ways the document leaves the workflow.

use vstd::prelude::*;
use vstd::utf8::*;
use crate::error::ErrorKind;

verus! {

/// The artifact of a pairing handshake, which proves that host and device
/// trust each other. The certificates and keys are held as the bytes the
/// handshake gave.
#[derive(Clone, Debug, PartialEq, Eq)]
pub struct TrustRecord {
    pub device_certificate: Vec<u8>,
    pub host_private_key: Vec<u8>,
    pub host_certificate: Vec<u8>,
    pub root_private_key: Vec<u8>,
    pub root_certificate: Vec<u8>,
    pub system_buid: String,
    /// The identifier the host generated for this pairing.
    pub host_id: String,
    pub escrow_bag: Option<Vec<u8>>,
    pub wifi_mac_address: String,
    /// The identifier of the device the record is for.
    pub udid: Option<String>,
}

/// What a trust record holds, as mathematical values.
pub struct RecordView {
    pub device_certificate: Seq<u8>,
    pub host_private_key: Seq<u8>,
    pub host_certificate: Seq<u8>,
    pub root_private_key: Seq<u8>,
    pub root_certificate: Seq<u8>,
    pub system_buid: Seq<char>,
    pub host_id: Seq<char>,
    pub escrow_bag: Option<Seq<u8>>,
    pub wifi_mac_address: Seq<char>,
    pub udid: Option<Seq<char>>,
}

impl View for TrustRecord {
    type V = RecordView;

    open spec fn view(&self) -> RecordView {
        RecordView {
            device_certificate: self.device_certificate@,
            host_private_key: self.host_private_key@,
            host_certificate: self.host_certificate@,
            root_private_key: self.root_private_key@,
            root_certificate: self.root_certificate@,
            system_buid: self.system_buid@,
            host_id: self.host_id@,
            escrow_bag: match self.escrow_bag {
                Some(bag) => Some(bag@),
                None => None,
            },
            wifi_mac_address: self.wifi_mac_address@,
            udid: match self.udid {
                Some(id) => Some(id@),
                None => None,
            },
        }
    }
}

/// The record `record` scoped to the device `id`.
pub open spec fn bound_to(record: RecordView, id: Seq<char>) -> RecordView {
    RecordView { udid: Some(id), ..record }
}

impl TrustRecord {
    /// Overwrites the record's device identifier with `id`, so that a record
    /// is never used for another device than the one it was resolved for.
    pub fn bind_to_device(self, id: &str) -> (out: TrustRecord)
        ensures
            out@ == bound_to(self@, id@),
    {
        let mut out = self;
        out.udid = Some(String::from_str(id));
        out
    }
}

#[verifier::external_type_specification]
#[verifier::external_body]
pub struct ExIdeviceError(idevice::IdeviceError);

/// The property-list document that stands for a record, or `None` where the
/// record has none.
pub uninterp spec fn plist_encoding(record: RecordView) -> Option<Seq<u8>>;

/// Calls `idevice::pairing_file::PairingFile::serialize` on the record's
/// values. The document it writes depends on those values alone, and the
/// contract gives it a name without stating what it holds.
#[verifier::external_body]
fn encode_plist(record: &TrustRecord) -> (out: Result<Vec<u8>, idevice::IdeviceError>)
    ensures
        match out {
            Ok(bytes) => plist_encoding(record@) == Some(bytes@),
            Err(_) => plist_encoding(record@).is_none(),
        },
{
    idevice::pairing_file::PairingFile {
        device_certificate: record.device_certificate.clone().into(),
        host_private_key: record.host_private_key.clone(),
        host_certificate: record.host_certificate.clone().into(),
        root_private_key: record.root_private_key.clone(),
        root_certificate: record.root_certificate.clone().into(),
        system_buid: record.system_buid.clone(),
        host_id: record.host_id.clone(),
        escrow_bag: record.escrow_bag.clone(),
        wifi_mac_address: record.wifi_mac_address.clone(),
        udid: record.udid.clone(),
    }.serialize()
}

/// The record as a property-list document, for storage or transfer.
pub fn serialize_record(record: &TrustRecord) -> (out: Result<Vec<u8>, ErrorKind>)
    ensures
        match out {
            Ok(bytes) => plist_encoding(record@) == Some(bytes@),
            Err(kind) => kind == ErrorKind::SerializationFailed && plist_encoding(record@).is_none(),
        },
{
    match encode_plist(record) {
        Ok(bytes) => Ok(bytes),
        Err(_) => Err(ErrorKind::SerializationFailed),
    }
}

/// Calls `String::from_utf8`, which gives the text that the bytes encode
/// where they are valid UTF-8 and fails otherwise.
#[verifier::external_body]
fn text_of(bytes: Vec<u8>) -> (out: Option<String>)
    ensures
        out is Some <==> valid_utf8(bytes@),
        out matches Some(text) ==> text@ == decode_utf8(bytes@),
{
    String::from_utf8(bytes).ok()
}

/// What is left to do with a serialized record.
#[derive(Debug, PartialEq, Eq)]
pub enum Export {
    /// Write `bytes` to the local file `path`, then report `path`.
    ToFile { path: String, bytes: Vec<u8> },
    /// Report the document itself.
    AsText { text: String },
}

/// Decides how a serialized record leaves the workflow: to the destination
/// where one is given, and as text otherwise, which needs the bytes to be
/// valid UTF-8.
pub fn export_serialized(bytes: Vec<u8>, destination: Option<String>) -> (out: Result<Export, ErrorKind>)
    ensures
        match destination {
            Some(path) => out matches Ok(Export::ToFile { path: p, bytes: b }) && p == path && b == bytes,
            None => if valid_utf8(bytes@) {
                out matches Ok(Export::AsText { text }) && text@ == decode_utf8(bytes@)
            } else {
                out == Err::<Export, ErrorKind>(ErrorKind::SerializationFailed)
            },
        },
{
    match destination {
        Some(path) => Ok(Export::ToFile { path, bytes }),
        None => match text_of(bytes) {
            Some(text) => Ok(Export::AsText { text }),
            None => Err(ErrorKind::SerializationFailed),
        },
    }
}

/// Serializes `record` and decides how the document leaves the workflow.
pub fn export_record(record: &TrustRecord, destination: Option<String>) -> (out: Result<Export, ErrorKind>)
    ensures
        match plist_encoding(record@) {
            None => out == Err::<Export, ErrorKind>(ErrorKind::SerializationFailed),
            Some(doc) => match destination {
                Some(path) => out matches Ok(Export::ToFile { path: p, bytes: b }) && p == path && b@ == doc,
                None => if valid_utf8(doc) {
                    out matches Ok(Export::AsText { text }) && text@ == decode_utf8(doc)
                } else {
                    out == Err::<Export, ErrorKind>(ErrorKind::SerializationFailed)
                },
            },
        },
{
    match serialize_record(record) {
        Ok(bytes) => export_serialized(bytes, destination),
        Err(kind) => Err(kind),
    }
}

} // verus!
